//! The type returned from widget layout.

use vstd::prelude::*;

pub use kurbo::{Insets, Size};

verus! {

/// kurbo's `Size`: a width and a height, carried through a layout unread.
#[verifier::external_type_specification]
#[verifier::external_body]
pub struct ExSize(kurbo::Size);

/// kurbo's `Insets`: the reserved paint insets, carried through unread.
#[verifier::external_type_specification]
#[verifier::external_body]
pub struct ExInsets(kurbo::Insets);

/// The result of a widget's layout method.
///
/// This always includes the widget's desired size, and may optionally
/// contain other information, such as any paint insets or baseline
/// positions.
#[derive(Debug, Clone, Copy)]
pub struct Layout {
    size: Size,
    // reserved for paint insets; no layout reports any yet
    _insets: Option<Insets>,
}

impl Layout {
    /// The size this layout carries.
    pub closed spec fn view(&self) -> Size {
        self.size
    }

    /// The layout that `new` builds from `size`.
    pub closed spec fn spec_new(size: Size) -> Layout {
        Layout { size, _insets: None }
    }

    /// Create a new `Layout` from some `Size`.
    pub fn new(size: Size) -> (r: Self)
        ensures
            r == Layout::spec_new(size),
            r@ == size,
    {
        Layout { size, _insets: None }
    }

    /// The widget's desired size.
    pub fn size(&self) -> (r: Size)
        ensures
            r == self@,
    {
        self.size
    }
}

impl From<Size> for Layout {
    fn from(src: Size) -> (r: Layout) {
        Layout::new(src)
    }
}

impl vstd::std_specs::convert::FromSpecImpl<Size> for Layout {
    open spec fn obeys_from_spec() -> bool {
        true
    }

    open spec fn from_spec(v: Size) -> Layout {
        Layout::spec_new(v)
    }
}

/// A layout reports exactly the size it was created from, whether it was
/// built by `new` or converted with `from`.
pub proof fn lemma_size_of_new(size: Size)
    ensures
        Layout::spec_new(size)@ == size,
        <Layout as vstd::std_specs::convert::FromSpec<Size>>::from_spec(size)@ == size,
{
}

} // verus!
