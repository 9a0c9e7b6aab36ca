//! Config selection: from what a caller asks for to the configs that match,
//! each with what it offers.
//!
//! A selection runs through stages.  Each stage names the native call to make
//! next, takes its answer and leads to the next stage or ends the selection.
//! The reasons for which candidates were dropped are collected, and reported
//! together once no candidate is left.

use crate::config::{
    Api, ConfigAttribs, ConfigBuilder, ReleaseBehavior, SwapInterval, SwapIntervalRanges, Version,
};
use crate::egl::display::{
    api_bound, at_least, bind_api_plan, version_at_least, BindApi, Display, DisplayView,
    EglVersion,
};
use crate::error::{Error, ErrorType, Failure, NativeCall, OsError, Unsupported};
use crate::ffi;
use std::sync::Arc;
use vstd::prelude::*;

verus! {

/// The red bits of `color` bits of colour: a third, rounded down.
pub open spec fn red_bits(color: u8) -> int {
    (color / 3) as int
}

/// The green bits of `color` bits of colour: a third, rounded up.
pub open spec fn green_bits(color: u8) -> int {
    color / 3 + if color % 3 != 0 {
        1int
    } else {
        0int
    }
}

/// The blue bits of `color` bits of colour: what red and green leave.
pub open spec fn blue_bits(color: u8) -> int {
    color / 3 + if color % 3 == 2 {
        1int
    } else {
        0int
    }
}

/// The three channels share the colour bits as evenly as they can: together
/// they have all of them, red never has more than blue, blue never more than
/// green, and green at most one more than red.
pub proof fn color_split_is_even(color: u8)
    ensures
        red_bits(color) + green_bits(color) + blue_bits(color) == color,
        red_bits(color) <= blue_bits(color) <= green_bits(color) <= red_bits(color) + 1,
{
}

/// The bits of colour asked for, as red, green and blue.
pub fn split_color_bits(color: u8) -> (rgb: (u8, u8, u8))
    ensures
        rgb.0 == red_bits(color),
        rgb.1 == green_bits(color),
        rgb.2 == blue_bits(color),
{
    let third: u8 = color / 3;
    let rest: u8 = color % 3;
    let green: u8 = if rest != 0 {
        third + 1
    } else {
        third
    };
    let blue: u8 = if rest == 2 {
        third + 1
    } else {
        third
    };
    (third, green, blue)
}

/// The kinds of surface asked for, as the bits of the surface-type attribute.
pub open spec fn surface_type_bits(cb: ConfigBuilder) -> i32 {
    (if cb.window_surface_support {
        ffi::WINDOW_BIT
    } else {
        0i32
    }) | (if cb.pbuffer_surface_support {
        ffi::PBUFFER_BIT
    } else {
        0i32
    }) | (if cb.pixmap_surface_support {
        ffi::PIXMAP_BIT
    } else {
        0i32
    })
}

/// The bit that stands for an API and major version in the renderable-type
/// and conformance attributes.
pub open spec fn renderable_bit(version: (Api, Version)) -> i32 {
    match version.0 {
        Api::OpenGlEs => if version.1.0 == 3 {
            ffi::OPENGL_ES3_BIT
        } else if version.1.0 == 2 {
            ffi::OPENGL_ES2_BIT
        } else {
            ffi::OPENGL_ES_BIT
        },
        _ => ffi::OPENGL_BIT,
    }
}

/// Whether only a display of protocol 1.3 or later can offer the API and
/// version: all but OpenGL ES 1.
pub open spec fn needs_renderable_type(version: (Api, Version)) -> bool {
    !(version.0 == Api::OpenGlEs && version.1.0 == 1)
}

/// An attribute followed by its value.
pub open spec fn pair(key: i32, value: i32) -> Seq<i32> {
    seq![key, value]
}

/// An attribute followed by its value, where there is one.
pub open spec fn optional(key: i32, value: Option<i32>) -> Seq<i32> {
    match value {
        Some(v) => pair(key, v),
        None => Seq::empty(),
    }
}

/// The part of the filter that chooses by API.
pub open spec fn renderable_part(cb: ConfigBuilder, version: EglVersion) -> Seq<i32> {
    if at_least(version, 1, 3) {
        pair(ffi::RENDERABLE_TYPE, renderable_bit(cb.version)) + pair(
            ffi::CONFORMANT,
            renderable_bit(cb.version),
        )
    } else {
        Seq::empty()
    }
}

/// The part of the filter that chooses by acceleration: a config without
/// caveat where acceleration is asked for, a slow one where it is refused.
pub open spec fn caveat_part(cb: ConfigBuilder) -> Seq<i32> {
    optional(
        ffi::CONFIG_CAVEAT,
        match cb.hardware_accelerated {
            Some(true) => Some(ffi::NONE),
            Some(false) => Some(ffi::SLOW_CONFIG),
            None => None,
        },
    )
}

/// The part of the filter that chooses by bits of colour.
pub open spec fn color_part(cb: ConfigBuilder) -> Seq<i32> {
    match cb.color_bits {
        Some(color) => pair(ffi::RED_SIZE, red_bits(color) as i32) + pair(
            ffi::GREEN_SIZE,
            green_bits(color) as i32,
        ) + pair(ffi::BLUE_SIZE, blue_bits(color) as i32),
        None => Seq::empty(),
    }
}

/// A small number, where there is one, as an attribute value.
pub open spec fn widened(value: Option<u8>) -> Option<i32> {
    match value {
        Some(v) => Some(v as i32),
        None => None,
    }
}

/// The list of attributes that the native side filters configs by, for the
/// request `cb` on a display of protocol `version`: the attributes in a fixed
/// order, each followed by its value, and the terminator last.
pub open spec fn filter_attribs(cb: ConfigBuilder, version: EglVersion) -> Seq<i32> {
    (if at_least(version, 1, 2) {
        pair(ffi::COLOR_BUFFER_TYPE, ffi::RGB_BUFFER)
    } else {
        Seq::empty()
    }) + pair(ffi::SURFACE_TYPE, surface_type_bits(cb)) + renderable_part(cb, version)
        + caveat_part(cb) + color_part(cb) + optional(ffi::ALPHA_SIZE, widened(cb.alpha_bits))
        + optional(ffi::DEPTH_SIZE, widened(cb.depth_bits)) + optional(
        ffi::STENCIL_SIZE,
        widened(cb.stencil_bits),
    ) + optional(
        ffi::SAMPLES,
        match cb.multisampling {
            Some(samples) => Some(samples as i32),
            None => None,
        },
    ) + optional(ffi::NATIVE_VISUAL_ID, cb.plat_attr.x11_visual_xid) + seq![ffi::NONE]
}

/// An attribute list is made of pairs and ends in the terminator: a filter
/// has an odd number of entries, and the terminator is the last of them.
pub proof fn filter_is_terminated(cb: ConfigBuilder, version: EglVersion)
    ensures
        filter_attribs(cb, version).len() % 2 == 1,
        filter_attribs(cb, version).last() == ffi::NONE,
{
}

/// Why no config can match the request `cb` on the display `d`, where that
/// is known before the native side is asked; `None` where it has to be
/// asked.
///
/// A request is refused where the display's protocol is too old for the API,
/// where it wants no double buffering, where it wants stereoscopy, where it
/// wants nothing flushed on release and the display has no flush control,
/// and where it wants sRGB and the display has no colour spaces.  Only the
/// missing flush control is named as a reason.
pub open spec fn refusal(cb: ConfigBuilder, d: DisplayView) -> Option<Failure> {
    let none = Failure::single(ErrorType::NoAvailableConfig);
    if needs_renderable_type(cb.version) && !at_least(d.version, 1, 3) {
        Some(none)
    } else if cb.double_buffer == Some(false) {
        Some(none)
    } else if cb.stereoscopy {
        Some(none)
    } else if cb.release_behavior == ReleaseBehavior::Keep && !d.has(
        "EGL_KHR_context_flush_control",
    ) {
        Some(none.with(ErrorType::FlushControlNotSupported))
    } else if cb.srgb == Some(true) && !d.has("EGL_KHR_gl_colorspace") {
        Some(none)
    } else {
        None
    }
}

/// Appends an attribute and its value.
pub(crate) fn push_pair(out: &mut Vec<i32>, key: i32, value: i32)
    ensures
        final(out)@ == old(out)@ + pair(key, value),
{
    out.push(key);
    out.push(value);
}

/// Appends an attribute and its value, where there is one.
pub(crate) fn push_optional(out: &mut Vec<i32>, key: i32, value: Option<i32>)
    ensures
        final(out)@ == old(out)@ + optional(key, value),
{
    match value {
        Some(v) => {
            push_pair(out, key, v);
        },
        None => {
        },
    }
}

/// A small number, where there is one, as an attribute value.
fn widen(value: Option<u8>) -> (w: Option<i32>)
    ensures
        w == widened(value),
{
    match value {
        Some(v) => Some(v as i32),
        None => None,
    }
}

/// The list of attributes that the native side filters configs by.
pub fn filter_attrib_list(cb: &ConfigBuilder, version: EglVersion) -> (out: Vec<i32>)
    requires
        cb.version_known(),
    ensures
        out@ == filter_attribs(*cb, version),
{
    let mut out: Vec<i32> = Vec::new();
    if version_at_least(version, 1, 2) {
        push_pair(&mut out, ffi::COLOR_BUFFER_TYPE, ffi::RGB_BUFFER);
    }

    let window: i32 = if cb.window_surface_support {
        ffi::WINDOW_BIT
    } else {
        0
    };
    let pbuffer: i32 = if cb.pbuffer_surface_support {
        ffi::PBUFFER_BIT
    } else {
        0
    };
    let pixmap: i32 = if cb.pixmap_surface_support {
        ffi::PIXMAP_BIT
    } else {
        0
    };
    push_pair(&mut out, ffi::SURFACE_TYPE, window | pbuffer | pixmap);
    let ghost s1 = out@;

    if version_at_least(version, 1, 3) {
        let bit: i32 = match cb.version.0 {
            Api::OpenGlEs => if cb.version.1.0 == 3 {
                ffi::OPENGL_ES3_BIT
            } else if cb.version.1.0 == 2 {
                ffi::OPENGL_ES2_BIT
            } else {
                ffi::OPENGL_ES_BIT
            },
            _ => ffi::OPENGL_BIT,
        };
        push_pair(&mut out, ffi::RENDERABLE_TYPE, bit);
        push_pair(&mut out, ffi::CONFORMANT, bit);
    }
    let ghost s2 = out@;
    assert(s2 == s1 + renderable_part(*cb, version));

    let caveat: Option<i32> = match cb.hardware_accelerated {
        Some(true) => Some(ffi::NONE),
        Some(false) => Some(ffi::SLOW_CONFIG),
        None => None,
    };
    push_optional(&mut out, ffi::CONFIG_CAVEAT, caveat);
    let ghost s3 = out@;

    match cb.color_bits {
        Some(color) => {
            let (red, green, blue) = split_color_bits(color);
            push_pair(&mut out, ffi::RED_SIZE, red as i32);
            push_pair(&mut out, ffi::GREEN_SIZE, green as i32);
            push_pair(&mut out, ffi::BLUE_SIZE, blue as i32);
        },
        None => {},
    }
    let ghost s4 = out@;
    assert(s4 == s3 + color_part(*cb));

    push_optional(&mut out, ffi::ALPHA_SIZE, widen(cb.alpha_bits));
    push_optional(&mut out, ffi::DEPTH_SIZE, widen(cb.depth_bits));
    push_optional(&mut out, ffi::STENCIL_SIZE, widen(cb.stencil_bits));
    let samples: Option<i32> = match cb.multisampling {
        Some(samples) => Some(samples as i32),
        None => None,
    };
    push_optional(&mut out, ffi::SAMPLES, samples);
    push_optional(&mut out, ffi::NATIVE_VISUAL_ID, cb.plat_attr.x11_visual_xid);
    out.push(ffi::NONE);
    out
}

/// The mathematical value of a [`Config`].
pub struct ConfigView {
    pub display: DisplayView,
    pub config_id: usize,
    pub version: (Api, Version),
}

/// A config that was selected on a display.  It never changes, and a copy
/// shares the display.
#[derive(Debug)]
pub struct Config {
    display: Arc<Display>,
    config_id: usize,
    version: (Api, Version),
}

impl View for Config {
    type V = ConfigView;

    closed spec fn view(&self) -> ConfigView {
        ConfigView { display: self.display@, config_id: self.config_id, version: self.version }
    }
}

/// A native query for one attribute of a config.
#[derive(Clone, Copy, Debug, PartialEq, Eq)]
pub struct AttribQuery {
    pub display: usize,
    pub config: usize,
    pub attribute: i32,
}

/// The query for the native visual of the config `conf_id` on the display
/// `disp`.
pub fn native_visual_id_query(disp: usize, conf_id: usize) -> (q: AttribQuery)
    ensures
        q == (AttribQuery { display: disp, config: conf_id, attribute: ffi::NATIVE_VISUAL_ID }),
{
    AttribQuery { display: disp, config: conf_id, attribute: ffi::NATIVE_VISUAL_ID }
}

/// The native visual of a config, from what the query for it answered: the
/// value, or the native error, which makes an OS-level error.
pub fn get_native_visual_id(reply: Result<i32, u32>) -> (r: Result<i32, Error>)
    ensures
        match reply {
            Ok(value) => r == Ok::<i32, Error>(value),
            Err(code) => r matches Err(e) && e@ == Failure::single(
                ErrorType::OsError(OsError::Native { call: NativeCall::GetConfigAttrib, code }),
            ),
        },
{
    match reply {
        Ok(value) => Ok(value),
        Err(code) => Err(Error::native(NativeCall::GetConfigAttrib, code)),
    }
}

/// A candidate config as the native side enumerated it, with what the
/// queries for its smallest and biggest swap interval answered: the value,
/// or the native error.  The two are looked at only where the request names a
/// swap interval.
#[derive(Clone, Copy, Debug, PartialEq, Eq)]
pub struct Candidate {
    pub config_id: usize,
    pub min_swap_interval: Result<i32, u32>,
    pub max_swap_interval: Result<i32, u32>,
}

/// The attributes of a config as the native side reports them.
#[derive(Clone, Copy, Debug, PartialEq, Eq)]
pub struct NativeAttribs {
    pub min_swap_interval: i32,
    pub max_swap_interval: i32,
    pub caveat: i32,
    pub red_size: i32,
    pub green_size: i32,
    pub blue_size: i32,
    pub alpha_size: i32,
    pub depth_size: i32,
    pub stencil_size: i32,
    pub samples: i32,
}

/// What reading the attributes of a selected config answered: the
/// attributes, or the native error of the first query that failed.
#[derive(Clone, Copy, Debug, PartialEq, Eq)]
pub struct Readback {
    pub config_id: usize,
    pub attribs: Result<NativeAttribs, u32>,
}

impl NativeAttribs {
    /// The bits of colour: red, blue and green together, each taken as a
    /// byte.
    pub open spec fn color_sum(self) -> int {
        (self.red_size as u8) + (self.blue_size as u8) + (self.green_size as u8)
    }

    /// Whether the attributes can be held: no swap interval is negative, and
    /// the bits of colour fit a byte.
    pub open spec fn usable(self) -> bool {
        &&& self.min_swap_interval >= 0
        &&& self.max_swap_interval >= 0
        &&& self.color_sum() <= 255
    }

    /// Whether the attributes can be held.
    pub fn is_usable(&self) -> (b: bool)
        ensures
            b == self.usable(),
    {
        let red: u8 = #[verifier::truncate] (self.red_size as u8);
        let green: u8 = #[verifier::truncate] (self.green_size as u8);
        let blue: u8 = #[verifier::truncate] (self.blue_size as u8);
        self.min_swap_interval >= 0 && self.max_swap_interval >= 0 && red as u32 + blue as u32
            + green as u32 <= 255
    }

    /// What a config with these attributes offers to the request `cb`.
    ///
    /// The kinds of surface, the version and the release behaviour are those
    /// of the request.  A config is accelerated unless its caveat says that
    /// it is slow.  One sample or none is no multisampling.  The swap
    /// interval is the one asked for, or the smallest of the first range.
    pub open spec fn offer(self, cb: ConfigBuilder) -> ConfigAttribs {
        let ranges = SwapIntervalRanges::of(
            self.min_swap_interval as u32,
            self.max_swap_interval as u32,
        );
        ConfigAttribs {
            version: cb.version,
            window_surface_support: cb.window_surface_support,
            pbuffer_surface_support: cb.pbuffer_surface_support,
            pixmap_surface_support: cb.pixmap_surface_support,
            surfaceless_support: cb.surfaceless_support,
            hardware_accelerated: self.caveat != ffi::SLOW_CONFIG,
            color_bits: self.color_sum() as u8,
            alpha_bits: self.alpha_size as u8,
            depth_bits: self.depth_size as u8,
            stencil_bits: self.stencil_size as u8,
            stereoscopy: false,
            double_buffer: true,
            multisampling: if self.samples == 0 || self.samples == 1 {
                None
            } else {
                Some(self.samples as u16)
            },
            srgb: cb.srgb == Some(true),
            release_behavior: cb.release_behavior,
            desired_swap_interval: match cb.desired_swap_interval {
                Some(interval) => interval,
                None => ranges.first.lowest(),
            },
            swap_interval_ranges: ranges,
        }
    }

    /// What a config with these attributes offers to the request `cb`.
    pub fn to_attribs(&self, cb: &ConfigBuilder) -> (a: ConfigAttribs)
        requires
            self.usable(),
        ensures
            a == self.offer(*cb),
    {
        let ranges = SwapIntervalRanges::from_limits(
            self.min_swap_interval as u32,
            self.max_swap_interval as u32,
        );
        let red: u8 = #[verifier::truncate] (self.red_size as u8);
        let green: u8 = #[verifier::truncate] (self.green_size as u8);
        let blue: u8 = #[verifier::truncate] (self.blue_size as u8);
        ConfigAttribs {
            version: cb.version,
            window_surface_support: cb.window_surface_support,
            pbuffer_surface_support: cb.pbuffer_surface_support,
            pixmap_surface_support: cb.pixmap_surface_support,
            surfaceless_support: cb.surfaceless_support,
            hardware_accelerated: self.caveat != ffi::SLOW_CONFIG,
            color_bits: red + blue + green,
            alpha_bits: #[verifier::truncate] (self.alpha_size as u8),
            depth_bits: #[verifier::truncate] (self.depth_size as u8),
            stencil_bits: #[verifier::truncate] (self.stencil_size as u8),
            stereoscopy: false,
            double_buffer: true,
            multisampling: if self.samples == 0 || self.samples == 1 {
                None
            } else {
                Some(#[verifier::truncate] (self.samples as u16))
            },
            srgb: match cb.srgb {
                Some(srgb) => srgb,
                None => false,
            },
            release_behavior: cb.release_behavior,
            desired_swap_interval: match cb.desired_swap_interval {
                Some(interval) => interval,
                None => ranges.default_interval(),
            },
            swap_interval_ranges: ranges,
        }
    }
}

/// The mathematical value of a selection under way.
pub struct SelectionView {
    pub cb: ConfigBuilder,
    pub display: DisplayView,
    /// What the selection reports if it ends without a config.
    pub errors: Failure,
}

/// What every stage of a selection holds.
#[derive(Debug)]
struct Selection {
    cb: ConfigBuilder,
    display: Arc<Display>,
    errors: Error,
}

impl View for Selection {
    type V = SelectionView;

    closed spec fn view(&self) -> SelectionView {
        SelectionView { cb: self.cb, display: self.display@, errors: self.errors@ }
    }
}

/// Whether the API and version of `cb` can be looked for: an OpenGL ES
/// version has to be 1, 2 or 3.
pub open spec fn es_version_known(cb: ConfigBuilder) -> bool {
    cb.version.0 == Api::OpenGlEs ==> 1 <= cb.version.1.0 <= 3
}

/// Whether a selection is one that [`Config::new`] leads to: its version can
/// be looked for, and it reports that no config is available.
pub open spec fn selecting(s: SelectionView) -> bool {
    &&& es_version_known(s.cb)
    &&& s.errors.kind == ErrorType::NoAvailableConfig
}

/// The API is to be made current.
#[derive(Debug)]
pub struct Binding {
    base: Selection,
}

/// The native side is to count the configs that pass the filter.
#[derive(Debug)]
pub struct Counting {
    base: Selection,
    descriptor: Vec<i32>,
}

/// The native side is to hand out the configs that pass the filter.
#[derive(Debug)]
pub struct Fetching {
    base: Selection,
    descriptor: Vec<i32>,
    count: usize,
}

/// The caller's own choice among the candidates is to be made.
#[derive(Debug)]
pub struct Selecting {
    base: Selection,
    ids: Vec<usize>,
}

/// The attributes of the chosen configs are to be read.
#[derive(Debug)]
pub struct Reading {
    base: Selection,
    ids: Vec<usize>,
}

/// What follows once the API is current: an error, or the filter to count
/// configs by.
pub open spec fn bound_outcome(s: SelectionView, answer: bool) -> Result<Seq<i32>, Failure> {
    if !api_bound(s.cb.version.0, s.display.version, answer) {
        Err(Failure::single(ErrorType::VersionNotSupported))
    } else if s.cb.desired_swap_interval matches Some(SwapInterval::AdaptiveWait(_)) {
        Err(s.errors.with(ErrorType::AdaptiveSwapControlNotSupported))
    } else {
        match refusal(s.cb, s.display) {
            Some(f) => Err(Failure { kind: s.errors.kind, reasons: s.errors.reasons + f.reasons }),
            None => Ok(filter_attribs(s.cb, s.display.version)),
        }
    }
}

/// The reason for which a candidate is dropped where the swap interval
/// `desired` is asked for, or `None` where it stays: a limit that could not
/// be read, a minimum above the interval, or a maximum below it.  The
/// maximum is looked at only where the minimum lets the candidate pass.
pub open spec fn verdict(desired: i32, c: Candidate) -> Option<ErrorType> {
    match c.min_swap_interval {
        Err(code) => Some(
            ErrorType::OsError(OsError::ConfigAttrib { config: c.config_id, code }),
        ),
        Ok(min) => if desired < min {
            Some(ErrorType::OsError(OsError::SwapIntervalBelowMinimum { config: c.config_id }))
        } else {
            match c.max_swap_interval {
                Err(code) => Some(
                    ErrorType::OsError(OsError::ConfigAttrib { config: c.config_id, code }),
                ),
                Ok(max) => if desired > max {
                    Some(
                        ErrorType::OsError(
                            OsError::SwapIntervalAboveMaximum { config: c.config_id },
                        ),
                    )
                } else {
                    None
                },
            }
        },
    }
}

/// The swap interval that candidates are held to, as the native side counts
/// it; `None` where the request names none.
pub open spec fn wanted_interval(cb: ConfigBuilder) -> Option<i32> {
    match cb.desired_swap_interval {
        Some(interval) => Some(interval.count() as i32),
        None => None,
    }
}

/// The reason for which a candidate is dropped, or `None` where it stays.
/// Every candidate stays where no swap interval is asked for.
pub open spec fn dropped(desired: Option<i32>, c: Candidate) -> Option<ErrorType> {
    match desired {
        Some(d) => verdict(d, c),
        None => None,
    }
}

/// The candidates that stay, in their order.
pub open spec fn kept_ids(desired: Option<i32>, cands: Seq<Candidate>) -> Seq<usize>
    decreases cands.len(),
{
    if cands.len() == 0 {
        Seq::empty()
    } else {
        let before = kept_ids(desired, cands.drop_last());
        match dropped(desired, cands.last()) {
            Some(_) => before,
            None => before.push(cands.last().config_id),
        }
    }
}

/// The reasons for which candidates were dropped, one for each, in their
/// order.
pub open spec fn drop_reasons(desired: Option<i32>, cands: Seq<Candidate>) -> Seq<ErrorType>
    decreases cands.len(),
{
    if cands.len() == 0 {
        Seq::empty()
    } else {
        let before = drop_reasons(desired, cands.drop_last());
        match dropped(desired, cands.last()) {
            Some(why) => before.push(why),
            None => before,
        }
    }
}

/// The mathematical value of what the caller's choice answered.
pub open spec fn choices_of(v: Seq<Result<usize, Error>>) -> Seq<Result<usize, Failure>> {
    Seq::new(
        v.len(),
        |i: int|
            match v[i] {
                Ok(id) => Ok(id),
                Err(e) => Err(e@),
            },
    )
}

/// The configs that the caller's choice accepted, in their order.
pub open spec fn accepted(choices: Seq<Result<usize, Failure>>) -> Seq<usize>
    decreases choices.len(),
{
    if choices.len() == 0 {
        Seq::empty()
    } else {
        let before = accepted(choices.drop_last());
        match choices.last() {
            Ok(id) => before.push(id),
            Err(_) => before,
        }
    }
}

/// `errors` with the errors of the caller's choice added, in their order.
pub open spec fn rejected(errors: Failure, choices: Seq<Result<usize, Failure>>) -> Failure
    decreases choices.len(),
{
    if choices.len() == 0 {
        errors
    } else {
        let before = rejected(errors, choices.drop_last());
        match choices.last() {
            Ok(_) => before,
            Err(e) => before.append(e),
        }
    }
}

/// The configs whose attributes were read, each with what it offers, in
/// their order.
pub open spec fn read_configs(s: SelectionView, rs: Seq<Readback>) -> Seq<
    (ConfigAttribs, ConfigView),
>
    decreases rs.len(),
{
    if rs.len() == 0 {
        Seq::empty()
    } else {
        let before = read_configs(s, rs.drop_last());
        match rs.last().attribs {
            Ok(a) => before.push(
                (
                    a.offer(s.cb),
                    ConfigView {
                        display: s.display,
                        config_id: rs.last().config_id,
                        version: s.cb.version,
                    },
                ),
            ),
            Err(_) => before,
        }
    }
}

/// The reasons for which configs were dropped while their attributes were
/// read, one for each, in their order.
pub open spec fn read_reasons(rs: Seq<Readback>) -> Seq<ErrorType>
    decreases rs.len(),
{
    if rs.len() == 0 {
        Seq::empty()
    } else {
        let before = read_reasons(rs.drop_last());
        match rs.last().attribs {
            Ok(_) => before,
            Err(code) => before.push(
                ErrorType::OsError(OsError::ConfigAttrib { config: rs.last().config_id, code }),
            ),
        }
    }
}

/// The same configs, each offering sRGB.
pub open spec fn with_srgb(list: Seq<(ConfigAttribs, ConfigView)>) -> Seq<
    (ConfigAttribs, ConfigView),
> {
    Seq::new(list.len(), |i: int| (ConfigAttribs { srgb: true, ..list[i].0 }, list[i].1))
}

/// How a selection ends once the attributes were read: with the reasons
/// collected where no config is left; else with the configs, which come a
/// second time offering sRGB where the request leaves sRGB open.
pub open spec fn read_outcome(s: SelectionView, rs: Seq<Readback>) -> Result<
    Seq<(ConfigAttribs, ConfigView)>,
    Failure,
> {
    let configs = read_configs(s, rs);
    if configs.len() == 0 {
        Err(Failure { kind: s.errors.kind, reasons: s.errors.reasons + read_reasons(rs) })
    } else if s.cb.srgb is None {
        Ok(configs + with_srgb(configs))
    } else {
        Ok(configs)
    }
}

/// The mathematical value of a list of configs.
pub open spec fn configs_of(v: Seq<(ConfigAttribs, Config)>) -> Seq<(ConfigAttribs, ConfigView)> {
    Seq::new(v.len(), |i: int| (v[i].0, v[i].1@))
}

impl Binding {
    /// The selection so far.
    pub closed spec fn base(&self) -> SelectionView {
        self.base@
    }

    #[verifier::type_invariant]
    spec fn wf(&self) -> bool {
        selecting(self.base@)
    }

    /// What is to be done to make the API current.
    pub fn call(&self) -> (plan: BindApi)
        ensures
            plan == bind_api_plan(self.base().cb.version.0, self.base().display.version),
            selecting(self.base()),
    {
        proof {
            use_type_invariant(self);
        }
        Display::bind_api_call(self.base.cb.version.0, self.base.display.egl_version())
    }

    /// Takes what `eglBindAPI` answered where [`Binding::call`] asked for it
    /// (`answer` is not looked at otherwise), and leads to the filter.
    ///
    /// The selection ends here where the API is not current, where an
    /// adaptive swap interval is asked for, which EGL never offers, and
    /// where no config can match whatever the native side holds.
    pub fn bound(self, answer: bool) -> (r: Result<Counting, Error>)
        ensures
            match bound_outcome(self.base(), answer) {
                Ok(list) => r matches Ok(next) && next.base() == self.base() && next.filter()
                    == list,
                Err(f) => r matches Err(e) && e@ == f,
            },
    {
        proof {
            use_type_invariant(&self);
        }
        let Binding { base } = self;
        let Selection { cb, display, mut errors } = base;
        match Display::bind_api(cb.version.0, display.egl_version(), answer) {
            Err(e) => {
                return Err(e);
            },
            Ok(()) => {},
        }
        match cb.desired_swap_interval {
            Some(SwapInterval::AdaptiveWait(_)) => {
                errors.push(ErrorType::AdaptiveSwapControlNotSupported);
                return Err(errors);
            },
            _ => {},
        }
        let version = display.egl_version();
        let needs = !(matches!(cb.version.0, Api::OpenGlEs) && cb.version.1.0 == 1);
        if needs && !version_at_least(version, 1, 3) {
            return Err(errors);
        }
        if matches!(cb.double_buffer, Some(false)) || cb.stereoscopy {
            return Err(errors);
        }
        if matches!(cb.release_behavior, ReleaseBehavior::Keep) && !display.has_extension(
            "EGL_KHR_context_flush_control",
        ) {
            assert(errors@.reasons + Failure::single(ErrorType::NoAvailableConfig).with(
                ErrorType::FlushControlNotSupported,
            ).reasons == errors@.reasons.push(ErrorType::FlushControlNotSupported));
            errors.push(ErrorType::FlushControlNotSupported);
            return Err(errors);
        }
        if matches!(cb.srgb, Some(true)) && !display.has_extension("EGL_KHR_gl_colorspace") {
            return Err(errors);
        }
        let descriptor = filter_attrib_list(&cb, version);
        Ok(Counting { base: Selection { cb, display, errors }, descriptor })
    }
}

impl Counting {
    /// The selection so far.
    pub closed spec fn base(&self) -> SelectionView {
        self.base@
    }

    /// The filter to count configs by.
    pub closed spec fn filter(&self) -> Seq<i32> {
        self.descriptor@
    }

    #[verifier::type_invariant]
    spec fn wf(&self) -> bool {
        selecting(self.base@)
    }

    /// The filter to count configs by.
    pub fn descriptor(&self) -> (d: &Vec<i32>)
        ensures
            d@ == self.filter(),
            selecting(self.base()),
    {
        proof {
            use_type_invariant(self);
        }
        &self.descriptor
    }

    /// Takes the number of configs that pass the filter, or the native
    /// error.  The selection ends here where the count failed, which is
    /// added to the reasons, and where no config passes.
    pub fn counted(self, reply: Result<usize, u32>) -> (r: Result<Fetching, Error>)
        ensures
            match reply {
                Err(code) => r matches Err(e) && e@ == self.base().errors.with(
                    ErrorType::OsError(OsError::Native { call: NativeCall::ChooseConfig, code }),
                ),
                Ok(n) => if n == 0 {
                    r matches Err(e) && e@ == self.base().errors
                } else {
                    r matches Ok(next) && next.base() == self.base() && next.filter()
                        == self.filter() && next.wanted() == n
                },
            },
    {
        proof {
            use_type_invariant(&self);
        }
        let Counting { base, descriptor } = self;
        match reply {
            Err(code) => {
                let Selection { cb, display, mut errors } = base;
                errors.push(
                    ErrorType::OsError(OsError::Native { call: NativeCall::ChooseConfig, code }),
                );
                Err(errors)
            },
            Ok(n) => {
                if n == 0 {
                    Err(base.errors)
                } else {
                    Ok(Fetching { base, descriptor, count: n })
                }
            },
        }
    }
}

impl Fetching {
    /// The selection so far.
    pub closed spec fn base(&self) -> SelectionView {
        self.base@
    }

    /// The filter to fetch configs by.
    pub closed spec fn filter(&self) -> Seq<i32> {
        self.descriptor@
    }

    /// The number of configs to fetch.
    pub closed spec fn wanted(&self) -> usize {
        self.count
    }

    #[verifier::type_invariant]
    spec fn wf(&self) -> bool {
        selecting(self.base@)
    }

    /// The filter to fetch configs by.
    pub fn descriptor(&self) -> (d: &Vec<i32>)
        ensures
            d@ == self.filter(),
    {
        &self.descriptor
    }

    /// The number of configs to fetch.
    pub fn count(&self) -> (n: usize)
        ensures
            n == self.wanted(),
    {
        self.count
    }

    /// Whether the swap-interval limits of the candidates have to be read.
    pub fn needs_swap_limits(&self) -> (b: bool)
        ensures
            b == self.base().cb.desired_swap_interval.is_some(),
            selecting(self.base()),
    {
        proof {
            use_type_invariant(self);
        }
        self.base.cb.desired_swap_interval.is_some()
    }

    /// Takes the configs that the native side handed out, or the native
    /// error.
    ///
    /// Where the request names a swap interval, a candidate stays only if
    /// the interval lies within its limits; for every other one a reason is
    /// added.  The selection ends here where fetching failed, which is added
    /// to the reasons, and where no candidate stays.
    pub fn fetched(self, reply: Result<Vec<Candidate>, u32>) -> (r: Result<Selecting, Error>)
        ensures
            match reply {
                Err(code) => r matches Err(e) && e@ == self.base().errors.with(
                    ErrorType::OsError(OsError::Native { call: NativeCall::ChooseConfig, code }),
                ),
                Ok(cands) => {
                    let desired = wanted_interval(self.base().cb);
                    let errors = Failure {
                        kind: self.base().errors.kind,
                        reasons: self.base().errors.reasons + drop_reasons(desired, cands@),
                    };
                    if kept_ids(desired, cands@).len() == 0 {
                        r matches Err(e) && e@ == errors
                    } else {
                        r matches Ok(next) && next.base() == (SelectionView {
                            errors,
                            ..self.base()
                        }) && next.candidates() == kept_ids(desired, cands@)
                    }
                },
            },
    {
        proof {
            use_type_invariant(&self);
        }
        let Fetching { base, descriptor, count } = self;
        let Selection { cb, display, mut errors } = base;
        match reply {
            Err(code) => {
                errors.push(
                    ErrorType::OsError(OsError::Native { call: NativeCall::ChooseConfig, code }),
                );
                Err(errors)
            },
            Ok(cands) => {
                let desired: Option<i32> = match cb.desired_swap_interval {
                    Some(interval) => Some(#[verifier::truncate] (interval.refreshes() as i32)),
                    None => None,
                };
                let ghost start = errors@;
                let mut ids: Vec<usize> = Vec::new();
                let n: usize = cands.len();
                let mut i: usize = 0;
                while i < n
                    invariant
                        i <= n,
                        n == cands@.len(),
                        ids@ == kept_ids(desired, cands@.take(i as int)),
                        errors@.kind == start.kind,
                        errors@.reasons == start.reasons + drop_reasons(
                            desired,
                            cands@.take(i as int),
                        ),
                    decreases n - i,
                {
                    let c = cands[i];
                    proof {
                        assert(cands@.take(i as int + 1).drop_last() == cands@.take(i as int));
                    }
                    let reason: Option<ErrorType> = match desired {
                        None => None,
                        Some(d) => match c.min_swap_interval {
                            Err(code) => Some(
                                ErrorType::OsError(
                                    OsError::ConfigAttrib { config: c.config_id, code },
                                ),
                            ),
                            Ok(min) => if d < min {
                                Some(
                                    ErrorType::OsError(
                                        OsError::SwapIntervalBelowMinimum { config: c.config_id },
                                    ),
                                )
                            } else {
                                match c.max_swap_interval {
                                    Err(code) => Some(
                                        ErrorType::OsError(
                                            OsError::ConfigAttrib { config: c.config_id, code },
                                        ),
                                    ),
                                    Ok(max) => if d > max {
                                        Some(
                                            ErrorType::OsError(
                                                OsError::SwapIntervalAboveMaximum {
                                                    config: c.config_id,
                                                },
                                            ),
                                        )
                                    } else {
                                        None
                                    },
                                }
                            },
                        },
                    };
                    match reason {
                        Some(why) => {
                            errors.push(why);
                        },
                        None => {
                            ids.push(c.config_id);
                        },
                    }
                    i += 1;
                }
                assert(cands@.take(n as int) == cands@);
                if ids.len() == 0 {
                    Err(errors)
                } else {
                    Ok(Selecting { base: Selection { cb, display, errors }, ids })
                }
            },
        }
    }
}

impl Selecting {
    /// The selection so far.
    pub closed spec fn base(&self) -> SelectionView {
        self.base@
    }

    /// The candidates that the caller chooses among.
    pub closed spec fn candidates(&self) -> Seq<usize> {
        self.ids@
    }

    #[verifier::type_invariant]
    spec fn wf(&self) -> bool {
        selecting(self.base@)
    }

    /// The candidates that the caller chooses among.
    pub fn ids(&self) -> (ids: &Vec<usize>)
        ensures
            ids@ == self.candidates(),
            selecting(self.base()),
    {
        proof {
            use_type_invariant(self);
        }
        &self.ids
    }

    /// Takes what the caller's choice answered for the candidates: for each
    /// entry the config to go on with, or the error for which one is
    /// dropped.  The errors are added to the reasons.
    pub fn selected_with(self, choices: Vec<Result<usize, Error>>) -> (next: Reading)
        ensures
            next.base() == (SelectionView {
                errors: rejected(self.base().errors, choices_of(choices@)),
                ..self.base()
            }),
            next.chosen() == accepted(choices_of(choices@)),
    {
        proof {
            use_type_invariant(&self);
        }
        let Selecting { base, ids } = self;
        let Selection { cb, display, mut errors } = base;
        let ghost start = errors@;
        let ghost all = choices_of(choices@);
        let mut chosen: Vec<usize> = Vec::new();
        let n: usize = choices.len();
        let mut i: usize = 0;
        while i < n
            invariant
                i <= n,
                n == choices@.len(),
                all == choices_of(choices@),
                chosen@ == accepted(all.take(i as int)),
                errors@ == rejected(start, all.take(i as int)),
                errors@.kind == start.kind,
            decreases n - i,
        {
            proof {
                assert(all.take(i as int + 1).drop_last() == all.take(i as int));
            }
            match &choices[i] {
                Ok(id) => {
                    chosen.push(*id);
                },
                Err(e) => {
                    errors.append(e);
                },
            }
            i += 1;
        }
        assert(all.take(n as int) == all);
        Reading { base: Selection { cb, display, errors }, ids: chosen }
    }

    /// Lets `conf_selector` choose among the candidates, and takes its
    /// answer as [`Selecting::selected_with`] does.
    pub fn selected<F>(self, conf_selector: F) -> (next: Reading) where
        F: FnOnce(Vec<usize>, &Arc<Display>) -> Vec<Result<usize, Error>>,

        requires
            forall|ids: Vec<usize>, display: &Arc<Display>|
                conf_selector.requires((ids, display)),
        ensures
            exists|ids: Vec<usize>, display: &Arc<Display>, choices: Vec<Result<usize, Error>>|
                {
                    &&& ids@ == self.candidates()
                    &&& display@ == self.base().display
                    &&& #[trigger] conf_selector.ensures((ids, display), choices)
                    &&& next.base() == (SelectionView {
                        errors: rejected(self.base().errors, choices_of(choices@)),
                        ..self.base()
                    })
                    &&& next.chosen() == accepted(choices_of(choices@))
                },
    {
        let ids = copy_ids(&self.ids);
        let display = Display::share(&self.base.display);
        let choices = conf_selector(ids, &display);
        self.selected_with(choices)
    }
}

/// A copy of a list of configs.
fn copy_ids(ids: &Vec<usize>) -> (out: Vec<usize>)
    ensures
        out@ == ids@,
{
    let mut out: Vec<usize> = Vec::new();
    let n: usize = ids.len();
    let mut i: usize = 0;
    while i < n
        invariant
            i <= n,
            n == ids@.len(),
            out@ == ids@.take(i as int),
        decreases n - i,
    {
        out.push(ids[i]);
        i += 1;
    }
    out
}

impl Reading {
    /// The selection so far.
    pub closed spec fn base(&self) -> SelectionView {
        self.base@
    }

    /// The configs whose attributes are to be read.
    pub closed spec fn chosen(&self) -> Seq<usize> {
        self.ids@
    }

    #[verifier::type_invariant]
    spec fn wf(&self) -> bool {
        selecting(self.base@)
    }

    /// The configs whose attributes are to be read.
    pub fn ids(&self) -> (ids: &Vec<usize>)
        ensures
            ids@ == self.chosen(),
            selecting(self.base()),
    {
        proof {
            use_type_invariant(self);
        }
        &self.ids
    }

    /// Takes what reading the attributes of the chosen configs answered, and
    /// ends the selection.
    ///
    /// A config whose attributes could not be read is dropped, and a reason
    /// is added for it.  Where no config is left, the reasons collected are
    /// the error.  Where the request leaves sRGB open, every config comes
    /// twice: once without sRGB and, after all of these, once with it.
    pub fn read(self, readbacks: &Vec<Readback>) -> (r: Result<Vec<(ConfigAttribs, Config)>, Error>)
        requires
            forall|i: int|
                0 <= i < readbacks@.len() ==> (#[trigger] readbacks@[i].attribs matches Ok(a)
                    ==> a.usable()),
        ensures
            match read_outcome(self.base(), readbacks@) {
                Ok(list) => r matches Ok(configs) && configs_of(configs@) == list,
                Err(f) => r matches Err(e) && e@ == f,
            },
    {
        proof {
            use_type_invariant(&self);
        }
        let Reading { base, ids } = self;
        let ghost s = base@;
        let Selection { cb, display, mut errors } = base;
        let ghost start = errors@;
        let mut configs: Vec<(ConfigAttribs, Config)> = Vec::new();
        let n: usize = readbacks.len();
        let mut i: usize = 0;
        while i < n
            invariant
                i <= n,
                n == readbacks@.len(),
                s == (SelectionView { cb, display: display@, errors: start }),
                forall|k: int|
                    0 <= k < readbacks@.len() ==> (#[trigger] readbacks@[k].attribs matches Ok(a)
                        ==> a.usable()),
                configs_of(configs@) == read_configs(s, readbacks@.take(i as int)),
                errors@.kind == start.kind,
                errors@.reasons == start.reasons + read_reasons(readbacks@.take(i as int)),
            decreases n - i,
        {
            let rb = readbacks[i];
            proof {
                assert(readbacks@.take(i as int + 1).drop_last() == readbacks@.take(i as int));
            }
            match rb.attribs {
                Ok(a) => {
                    let attribs = a.to_attribs(&cb);
                    let config = Config {
                        display: Display::share(&display),
                        config_id: rb.config_id,
                        version: cb.version,
                    };
                    let ghost before = configs@;
                    configs.push((attribs, config));
                },
                Err(code) => {
                    errors.push(
                        ErrorType::OsError(
                            OsError::ConfigAttrib { config: rb.config_id, code },
                        ),
                    );
                },
            }
            i += 1;
        }
        assert(readbacks@.take(n as int) == readbacks@);
        if configs.len() == 0 {
            return Err(errors);
        }
        if cb.srgb.is_none() {
            let ghost first = configs_of(configs@);
            let len: usize = configs.len();
            let mut j: usize = 0;
            while j < len
                invariant
                    j <= len,
                    len == first.len(),
                    configs@.len() == len + j,
                    configs_of(configs@) == first + with_srgb(first).take(j as int),
                decreases len - j,
            {
                let attribs = ConfigAttribs { srgb: true, ..configs[j].0 };
                let config = configs[j].1.share();
                let ghost before = configs@;
                assert(configs_of(before)[j as int] == first[j as int]);
                configs.push((attribs, config));
                assert(configs_of(configs@) == configs_of(before).push((attribs, config@)));
                j += 1;
            }
        }
        Ok(configs)
    }
}

impl Config {
    /// Starts the selection of configs for the request `cb` on `display`.
    ///
    /// A request for contexts that are current without a surface is not
    /// supported where the display lacks the extension for it.
    pub fn new(cb: &ConfigBuilder, display: &Arc<Display>) -> (r: Result<Binding, Error>)
        requires
            es_version_known(*cb),
        ensures
            if cb.surfaceless_support && !display@.has("EGL_KHR_surfaceless_context") {
                r matches Err(e) && e@ == Failure::single(
                    ErrorType::NotSupported(Unsupported::Surfaceless),
                )
            } else {
                r matches Ok(next) && next.base() == (SelectionView {
                    cb: *cb,
                    display: display@,
                    errors: Failure::single(ErrorType::NoAvailableConfig),
                })
            },
    {
        if cb.surfaceless_support && !display.has_extension("EGL_KHR_surfaceless_context") {
            return Err(Error::new(ErrorType::NotSupported(Unsupported::Surfaceless)));
        }
        Ok(
            Binding {
                base: Selection {
                    cb: *cb,
                    display: Display::share(display),
                    errors: Error::new(ErrorType::NoAvailableConfig),
                },
            },
        )
    }

    /// Another handle on the same config, sharing the display.
    pub fn share(&self) -> (c: Config)
        ensures
            c@ == self@,
    {
        Config {
            display: Display::share(&self.display),
            config_id: self.config_id,
            version: self.version,
        }
    }

    /// The display that the config was selected on.
    pub fn display(&self) -> (d: &Arc<Display>)
        ensures
            d@ == self@.display,
    {
        &self.display
    }

    /// The native handle of the config.
    pub fn config_id(&self) -> (id: usize)
        ensures
            id == self@.config_id,
    {
        self.config_id
    }

    /// The API and version that the config was selected for.
    pub fn version(&self) -> (v: (Api, Version))
        ensures
            v == self@.version,
    {
        self.version
    }

    /// The query for the native visual of the config.
    pub fn native_visual_id_query(&self) -> (q: AttribQuery)
        ensures
            q == (AttribQuery {
                display: self@.display.handle,
                config: self@.config_id,
                attribute: ffi::NATIVE_VISUAL_ID,
            }),
    {
        native_visual_id_query(self.display.handle(), self.config_id)
    }

    /// The native visual of the config, from what the query for it
    /// answered: the value, or the native error, which makes an OS-level
    /// error.
    pub fn get_native_visual_id(&self, reply: Result<i32, u32>) -> (r: Result<i32, Error>)
        ensures
            match reply {
                Ok(value) => r == Ok::<i32, Error>(value),
                Err(code) => r matches Err(e) && e@ == Failure::single(
                    ErrorType::OsError(
                        OsError::Native { call: NativeCall::GetConfigAttrib, code },
                    ),
                ),
            },
    {
        get_native_visual_id(reply)
    }
}

/// The selection that [`Config::new`] starts for the request `cb` on the
/// display `d`.
pub open spec fn fresh(cb: ConfigBuilder, d: DisplayView) -> SelectionView {
    SelectionView { cb, display: d, errors: Failure::single(ErrorType::NoAvailableConfig) }
}

/// The configs of a list of candidates, in their order.
pub open spec fn ids_of(cands: Seq<Candidate>) -> Seq<usize> {
    Seq::new(cands.len(), |i: int| cands[i].config_id)
}

/// A choice that accepts every one of `ids`.
pub open spec fn accept_all(ids: Seq<usize>) -> Seq<Result<usize, Failure>> {
    Seq::new(ids.len(), |i: int| Ok(ids[i]))
}

/// Where a swap interval is asked for that lies outside the limits of every
/// candidate, no candidate stays, and the reasons hold one entry for each
/// candidate, in their order, which names that candidate.
pub proof fn swap_interval_outside_every_range(desired: i32, cands: Seq<Candidate>)
    requires
        forall|i: int|
            0 <= i < cands.len() ==> {
                &&& (#[trigger] cands[i]).min_swap_interval matches Ok(min)
                &&& cands[i].max_swap_interval matches Ok(max)
                &&& (desired < min || desired > max)
            },
    ensures
        kept_ids(Some(desired), cands).len() == 0,
        drop_reasons(Some(desired), cands).len() == cands.len(),
        forall|i: int|
            0 <= i < cands.len() ==> {
                let why = #[trigger] drop_reasons(Some(desired), cands)[i];
                ||| why == ErrorType::OsError(
                    OsError::SwapIntervalBelowMinimum { config: cands[i].config_id },
                )
                ||| why == ErrorType::OsError(
                    OsError::SwapIntervalAboveMaximum { config: cands[i].config_id },
                )
            },
    decreases cands.len(),
{
    if cands.len() > 0 {
        swap_interval_outside_every_range(desired, cands.drop_last());
    }
}

/// Where no swap interval is asked for, every candidate stays and no reason
/// is added.
pub proof fn every_candidate_stays(cands: Seq<Candidate>)
    ensures
        kept_ids(None, cands) == ids_of(cands),
        drop_reasons(None, cands) == Seq::<ErrorType>::empty(),
    decreases cands.len(),
{
    if cands.len() > 0 {
        every_candidate_stays(cands.drop_last());
    }
}

/// A choice that accepts every candidate passes all of them on and adds
/// nothing to the errors.
pub proof fn accepting_all_keeps_all(errors: Failure, ids: Seq<usize>)
    ensures
        accepted(accept_all(ids)) == ids,
        rejected(errors, accept_all(ids)) == errors,
    decreases ids.len(),
{
    if ids.len() > 0 {
        accepting_all_keeps_all(errors, ids.drop_last());
        assert(accept_all(ids).drop_last() == accept_all(ids.drop_last()));
    }
}

/// The configs read for a request that names sRGB are those read for the same
/// request with sRGB left open, but for the sRGB that each offers; the
/// reasons do not depend on the request.
proof fn lemma_read_configs_srgb(s: SelectionView, rs: Seq<Readback>, srgb: bool)
    requires
        s.cb.srgb is None,
    ensures
        ({
            let fixed = SelectionView { cb: ConfigBuilder { srgb: Some(srgb), ..s.cb }, ..s };
            let open = read_configs(s, rs);
            let closed = read_configs(fixed, rs);
            &&& open.len() == closed.len()
            &&& forall|i: int|
                0 <= i < open.len() ==> {
                    &&& (#[trigger] open[i]).0 == (ConfigAttribs { srgb: false, ..closed[i].0 })
                    &&& open[i].1 == closed[i].1
                    &&& closed[i].0.srgb == srgb
                }
        }),
    decreases rs.len(),
{
    if rs.len() > 0 {
        lemma_read_configs_srgb(s, rs.drop_last(), srgb);
    }
}

/// Leaving sRGB open doubles the answer.
///
/// Take the same selection twice, once with sRGB left open and once with
/// sRGB named, and end both with the same attributes read.  Then both fail
/// with the same error, or both succeed; and where they succeed, the list for
/// the open request is twice as long as the other, its first half offers no
/// sRGB, and each entry of its second half is the entry of the first half at
/// the same place but for offering sRGB.
pub proof fn srgb_left_open_doubles(s: SelectionView, rs: Seq<Readback>, srgb: bool)
    requires
        s.cb.srgb is None,
    ensures
        ({
            let fixed = SelectionView { cb: ConfigBuilder { srgb: Some(srgb), ..s.cb }, ..s };
            match (read_outcome(s, rs), read_outcome(fixed, rs)) {
                (Ok(open), Ok(closed)) => {
                    &&& open.len() == 2 * closed.len()
                    &&& forall|i: int|
                        0 <= i < closed.len() ==> {
                            &&& (#[trigger] open[i]).0.srgb == false
                            &&& closed[i] == (ConfigAttribs { srgb, ..open[i].0 }, open[i].1)
                            &&& open[i + closed.len()] == (
                                ConfigAttribs { srgb: true, ..open[i].0 },
                                open[i].1,
                            )
                        }
                },
                (Err(a), Err(b)) => a == b,
                _ => false,
            }
        }),
{
    lemma_read_configs_srgb(s, rs, srgb);
}

/// Where the attributes of every config could be read, every config is in
/// the answer and no reason is added.
pub proof fn every_readback_counts(s: SelectionView, rs: Seq<Readback>)
    requires
        forall|i: int| 0 <= i < rs.len() ==> (#[trigger] rs[i]).attribs is Ok,
    ensures
        read_configs(s, rs).len() == rs.len(),
        read_reasons(rs) == Seq::<ErrorType>::empty(),
        forall|i: int|
            0 <= i < rs.len() ==> (#[trigger] read_configs(s, rs)[i]).1.config_id
                == rs[i].config_id,
    decreases rs.len(),
{
    if rs.len() > 0 {
        every_readback_counts(s, rs.drop_last());
    }
}

/// A request without constraints finds a config wherever the display holds
/// one.
///
/// Let the request name nothing but the API and version and the kinds of
/// surface, let the display be able to make the API current and be recent
/// enough for the version, let the native side enumerate at least one
/// config, let the caller's choice accept all of them and let their
/// attributes be read.  Then no stage ends the selection with an error, and
/// the answer holds every enumerated config twice.
pub proof fn unconstrained_request_succeeds(
    cb: ConfigBuilder,
    d: DisplayView,
    answer: bool,
    cands: Seq<Candidate>,
    rs: Seq<Readback>,
)
    requires
        es_version_known(cb),
        cb == (ConfigBuilder {
            version: cb.version,
            window_surface_support: cb.window_surface_support,
            pbuffer_surface_support: cb.pbuffer_surface_support,
            pixmap_surface_support: cb.pixmap_surface_support,
            ..ConfigBuilder::plain()
        }),
        api_bound(cb.version.0, d.version, answer),
        needs_renderable_type(cb.version) ==> at_least(d.version, 1, 3),
        cands.len() >= 1,
        rs.len() == cands.len(),
        forall|i: int|
            0 <= i < rs.len() ==> (#[trigger] rs[i]).attribs is Ok && rs[i].config_id
                == cands[i].config_id,
    ensures
        bound_outcome(fresh(cb, d), answer) == Ok::<Seq<i32>, Failure>(
            filter_attribs(cb, d.version),
        ),
        kept_ids(wanted_interval(cb), cands) == ids_of(cands),
        drop_reasons(wanted_interval(cb), cands) == Seq::<ErrorType>::empty(),
        accepted(accept_all(ids_of(cands))) == ids_of(cands),
        rejected(fresh(cb, d).errors, accept_all(ids_of(cands))) == fresh(cb, d).errors,
        read_outcome(fresh(cb, d), rs) matches Ok(list) && list.len() == 2 * cands.len(),
{
    every_candidate_stays(cands);
    accepting_all_keeps_all(fresh(cb, d).errors, ids_of(cands));
    every_readback_counts(fresh(cb, d), rs);
}

} // verus!
