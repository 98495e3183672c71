//! Blend state: named blend-factor pairs and the context-wide current mode.
//!
//! A blend mode is a small value type; setting it is last-writer-wins state
//! that applies to every subsequent present until changed again.  The
//! factors carry the numeric codes the GL backend expects.

use vstd::prelude::*;

verus! {

/// The blend factors the backend knows.
#[derive(Debug, Clone, Copy, PartialEq, Eq, Structural)]
pub enum BlendFactor {
    Zero,
    One,
    SrcColor,
    OneMinusSrcColor,
    DstColor,
    OneMinusDstColor,
    SrcAlpha,
    OneMinusSrcAlpha,
    DstAlpha,
    OneMinusDstAlpha,
}

impl BlendFactor {
    /// The numeric code the GL backend uses for this factor.
    pub open spec fn spec_gl_code(self) -> u32 {
        match self {
            BlendFactor::Zero => 0,
            BlendFactor::One => 1,
            BlendFactor::SrcColor => 0x0300,
            BlendFactor::OneMinusSrcColor => 0x0301,
            BlendFactor::SrcAlpha => 0x0302,
            BlendFactor::OneMinusSrcAlpha => 0x0303,
            BlendFactor::DstAlpha => 0x0304,
            BlendFactor::OneMinusDstAlpha => 0x0305,
            BlendFactor::DstColor => 0x0306,
            BlendFactor::OneMinusDstColor => 0x0307,
        }
    }

    /// The numeric code the GL backend uses for this factor.
    pub fn gl_code(&self) -> (r: u32)
        ensures
            r == self.spec_gl_code(),
    {
        match self {
            BlendFactor::Zero => 0,
            BlendFactor::One => 1,
            BlendFactor::SrcColor => 0x0300,
            BlendFactor::OneMinusSrcColor => 0x0301,
            BlendFactor::SrcAlpha => 0x0302,
            BlendFactor::OneMinusSrcAlpha => 0x0303,
            BlendFactor::DstAlpha => 0x0304,
            BlendFactor::OneMinusDstAlpha => 0x0305,
            BlendFactor::DstColor => 0x0306,
            BlendFactor::OneMinusDstColor => 0x0307,
        }
    }
}

/// A blend mode: the source and destination factor pair; an immutable
/// value.
#[derive(Debug, Clone, Copy, PartialEq, Eq, Structural)]
pub struct BlendMode {
    pub src: BlendFactor,
    pub dst: BlendFactor,
}

/// Standard alpha blending: source alpha against its complement.
pub fn normal() -> (r: BlendMode)
    ensures
        r == (BlendMode { src: BlendFactor::SrcAlpha, dst: BlendFactor::OneMinusSrcAlpha }),
{
    BlendMode { src: BlendFactor::SrcAlpha, dst: BlendFactor::OneMinusSrcAlpha }
}

/// Additive blending: both contributions at full weight.
pub fn additive() -> (r: BlendMode)
    ensures
        r == (BlendMode { src: BlendFactor::One, dst: BlendFactor::One }),
{
    BlendMode { src: BlendFactor::One, dst: BlendFactor::One }
}

/// Multiplicative blending: the source scaled by what is already there.
pub fn multiply() -> (r: BlendMode)
    ensures
        r == (BlendMode { src: BlendFactor::DstColor, dst: BlendFactor::Zero }),
{
    BlendMode { src: BlendFactor::DstColor, dst: BlendFactor::Zero }
}

/// A blend-factor pair as the numeric codes the backend call takes.
#[derive(Debug, Clone, Copy, PartialEq, Eq, Structural)]
pub struct BlendFunc {
    pub source: u32,
    pub destination: u32,
}

impl From<BlendMode> for BlendFunc {
    /// Both factors of the mode, as backend codes.
    fn from(mode: BlendMode) -> (r: BlendFunc) {
        BlendFunc { source: mode.src.gl_code(), destination: mode.dst.gl_code() }
    }
}

impl vstd::std_specs::convert::FromSpecImpl<BlendMode> for BlendFunc {
    open spec fn obeys_from_spec() -> bool {
        true
    }

    open spec fn from_spec(mode: BlendMode) -> BlendFunc {
        BlendFunc { source: mode.src.spec_gl_code(), destination: mode.dst.spec_gl_code() }
    }
}

/// The context-wide blend state the backend draws with.
#[derive(Debug, Clone, Copy, PartialEq, Eq, Structural)]
pub struct BlendState {
    pub mode: BlendMode,
}

impl BlendState {
    /// A fresh context blends normally until told otherwise.
    pub fn new() -> (r: BlendState)
        ensures
            r.mode == (BlendMode { src: BlendFactor::SrcAlpha, dst: BlendFactor::OneMinusSrcAlpha }),
    {
        BlendState { mode: normal() }
    }
}

/// Sets the context-wide blend mode: last writer wins, and the mode applies
/// to all subsequent presents until changed again.
pub fn set_blend_mode(state: &mut BlendState, mode: BlendMode)
    ensures
        final(state).mode == mode,
{
    state.mode = mode;
}

} // verus!
