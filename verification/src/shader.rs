//! Shader sources.

use std::borrow::Cow;
use vstd::prelude::*;

verus! {

/// Text that is either borrowed for the whole run or owned.
pub type CowStr<'a> = Cow<'a, str>;

/// The source of a shader written in WGSL.
#[derive(Debug)]
pub struct WgslSource<'a> {
    pub source: CowStr<'a>,
}

impl<'a> View for WgslSource<'a> {
    type V = Seq<char>;

    open spec fn view(&self) -> Seq<char> {
        self.source@
    }
}

impl WgslSource<'static> {
    /// A source that is part of the program.
    pub fn new_static(source: &'static str) -> (shader: Self)
        ensures
            shader@ == source@,
    {
        WgslSource { source: Cow::Borrowed(source) }
    }
}

impl<'a> WgslSource<'a> {
    /// A source that is borrowed or owned.
    pub fn new(source: CowStr<'a>) -> (shader: Self)
        ensures
            shader@ == source@,
    {
        WgslSource { source }
    }
}

} // verus!
