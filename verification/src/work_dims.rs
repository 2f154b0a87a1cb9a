//! Work dimensions: sizes and offsets over one, two or three axes.

use vstd::prelude::*;
use crate::error::Error;

verus! {

/// A size or an offset over up to three axes, or no statement at all.
#[derive(Clone, Copy, Debug, PartialEq, Eq, Structural)]
pub enum WorkDims {
    Unspecified,
    One(usize),
    Two(usize, usize),
    Three(usize, usize, usize),
}

/// The contents of a lowered size array, if there is one.
pub open spec fn raw_view(raw: Option<[usize; 3]>) -> Option<Seq<usize>> {
    match raw {
        Some(size) => Some(size@),
        None => None,
    }
}

impl WorkDims {
    /// The number of populated axes.
    pub open spec fn spec_dim_count(&self) -> u32 {
        match *self {
            WorkDims::Unspecified => 0,
            WorkDims::One(..) => 1,
            WorkDims::Two(..) => 2,
            WorkDims::Three(..) => 3,
        }
    }

    /// The three components with 1 on every unpopulated axis, or `None`
    /// where nothing is specified.
    pub open spec fn spec_raw(&self) -> Option<Seq<usize>> {
        match *self {
            WorkDims::Unspecified => None,
            WorkDims::One(x) => Some(seq![x, 1usize, 1usize]),
            WorkDims::Two(x, y) => Some(seq![x, y, 1usize]),
            WorkDims::Three(x, y, z) => Some(seq![x, y, z]),
        }
    }

    /// The number of elements that the dimensions span: the product of the
    /// populated components, and 0 where nothing is specified.
    pub open spec fn spec_len(&self) -> nat {
        match *self {
            WorkDims::Unspecified => 0,
            WorkDims::One(x) => x as nat,
            WorkDims::Two(x, y) => (x * y) as nat,
            WorkDims::Three(x, y, z) => (x * y * z) as nat,
        }
    }

    /// Returns the number of populated axes: 0 only for `Unspecified`.
    #[verifier::when_used_as_spec(spec_dim_count)]
    pub fn dim_count(&self) -> (count: u32)
        ensures
            count == self.spec_dim_count(),
            count <= 3,
            count == 0 <==> *self is Unspecified,
    {
        match self {
            WorkDims::Unspecified => 0,
            WorkDims::One(..) => 1,
            WorkDims::Two(..) => 2,
            WorkDims::Three(..) => 3,
        }
    }

    /// Whether the element count can be held in a `usize`, which is what
    /// [`WorkDims::to_len`] asks of its input.
    pub fn len_fits(&self) -> (fits: bool)
        ensures
            fits == (self.spec_len() <= usize::MAX),
    {
        match *self {
            WorkDims::Unspecified => true,
            WorkDims::One(_) => true,
            WorkDims::Two(x, y) => x.checked_mul(y).is_some(),
            WorkDims::Three(x, y, z) => {
                if z == 0 {
                    assert(x * y * z == 0) by (nonlinear_arith)
                        requires
                            z == 0,
                    ;
                    true
                } else {
                    assert(x * y <= x * y * z) by (nonlinear_arith)
                        requires
                            z >= 1,
                            x * y >= 0,
                    ;
                    match x.checked_mul(y) {
                        Some(xy) => xy.checked_mul(z).is_some(),
                        None => false,
                    }
                }
            },
        }
    }

    /// Returns the product of the populated dimensions, and fails exactly
    /// for `Unspecified`.
    pub fn to_len(&self) -> (len: Result<usize, Error>)
        requires
            self.spec_len() <= usize::MAX,
        ensures
            *self is Unspecified ==> len == Err::<usize, Error>(Error::DimensionsUnspecified),
            !(*self is Unspecified) ==> len == Ok::<usize, Error>(self.spec_len() as usize),
    {
        match *self {
            WorkDims::Unspecified => Err(Error::DimensionsUnspecified),
            WorkDims::One(x) => Ok(x),
            WorkDims::Two(x, y) => Ok(x * y),
            WorkDims::Three(x, y, z) => {
                if z == 0 {
                    assert(x * y * z == 0) by (nonlinear_arith)
                        requires
                            z == 0,
                    ;
                    Ok(0)
                } else {
                    assert(x * y <= x * y * z) by (nonlinear_arith)
                        requires
                            z >= 1,
                            x * y >= 0,
                    ;
                    Ok(x * y * z)
                }
            },
        }
    }

    /// Returns the three components, with 1 on every unpopulated axis, and
    /// fails exactly for `Unspecified`.
    pub fn to_size(&self) -> (size: Result<[usize; 3], Error>)
        ensures
            *self is Unspecified ==> size == Err::<[usize; 3], Error>(
                Error::DimensionsUnspecified,
            ),
            !(*self is Unspecified) ==> size is Ok && Some(size->Ok_0@) == self.spec_raw(),
    {
        match self.as_raw() {
            Some(size) => Ok(size),
            None => Err(Error::DimensionsUnspecified),
        }
    }

    /// Lowers the dimensions to the driver's size array: `None` for
    /// `Unspecified`, which leaves the choice to the driver, else the
    /// components with 1 on every unpopulated axis.
    pub fn as_raw(&self) -> (raw: Option<[usize; 3]>)
        ensures
            raw_view(raw) == self.spec_raw(),
    {
        match *self {
            WorkDims::Unspecified => None,
            WorkDims::One(x) => Some([x, 1, 1]),
            WorkDims::Two(x, y) => Some([x, y, 1]),
            WorkDims::Three(x, y, z) => Some([x, y, z]),
        }
    }
}

} // verus!
