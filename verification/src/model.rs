//! Spherical-harmonic model identities and coefficient-table validation.
//!
//! A model is two dense square tables `g` and `h` of scalar coefficients,
//! `(N+1) x (N+1)` for maximum degree `N`, together with the degree the
//! series is evaluated to.  The scalar type is a parameter: the verified
//! layer checks shapes and the degree range, and never looks at the
//! numeric values themselves.

use vstd::prelude::*;
use crate::text::str_eq;

verus! {

/// Identifier of a recognized internal-field model.
#[derive(Clone, Copy, PartialEq, Eq, Structural, Debug)]
pub enum ModelName {
    Jrm09,
    Jrm33,
}

/// Why constructing an internal-field model fails.
#[derive(Clone, Copy, PartialEq, Eq, Structural, Debug)]
pub enum ModelError {
    /// The model name is not one of the recognized identifiers.
    UnknownModelName,
    /// The `g` and `h` tables are not square matrices of one shared size.
    ShapeMismatch,
    /// The requested evaluation degree lies outside `1 ..= N`.
    DegreeOutOfRange,
}

/// Maps the two recognized model names to their identifiers; every other
/// name is a construction error.
pub fn parse_model_name(name: &str) -> (r: Result<ModelName, ModelError>)
    ensures
        name@ == "JRM09"@ ==> r == Ok::<ModelName, ModelError>(ModelName::Jrm09),
        name@ == "JRM33"@ ==> r == Ok::<ModelName, ModelError>(ModelName::Jrm33),
        name@ != "JRM09"@ && name@ != "JRM33"@ ==> r == Err::<ModelName, ModelError>(
            ModelError::UnknownModelName,
        ),
{
    proof {
        reveal_strlit("JRM09");
        reveal_strlit("JRM33");
        assert("JRM09"@ != "JRM33"@) by {
            assert("JRM09"@[3] != "JRM33"@[3]);
        }
    }
    if str_eq(name, "JRM09") {
        Ok(ModelName::Jrm09)
    } else if str_eq(name, "JRM33") {
        Ok(ModelName::Jrm33)
    } else {
        Err(ModelError::UnknownModelName)
    }
}

impl ModelError {
    /// The description [`ModelError::message`] returns for each variant.
    pub open spec fn message_spec(&self) -> Seq<char> {
        match *self {
            ModelError::UnknownModelName => "unknown model name: supported (JRM09, JRM33)"@,
            ModelError::ShapeMismatch => "model tables must be square matrices of one shared size"@,
            ModelError::DegreeOutOfRange => "evaluation degree must lie within 1 ..= N"@,
        }
    }

    /// A short description of the error, in place of a display impl.
    pub fn message(&self) -> (r: String)
        ensures
            r@ == self.message_spec(),
    {
        match *self {
            ModelError::UnknownModelName => "unknown model name: supported (JRM09, JRM33)".to_owned(),
            ModelError::ShapeMismatch => {
                "model tables must be square matrices of one shared size".to_owned()
            },
            ModelError::DegreeOutOfRange => "evaluation degree must lie within 1 ..= N".to_owned(),
        }
    }
}

/// Both coefficient tables are square and share one side length:
/// `g.rows == g.cols == h.rows == h.cols`.
pub open spec fn tables_matched<T>(g: Seq<Vec<T>>, h: Seq<Vec<T>>) -> bool {
    &&& g.len() == h.len()
    &&& forall|i: int| 0 <= i < g.len() ==> (#[trigger] g[i])@.len() == g.len()
    &&& forall|i: int| 0 <= i < h.len() ==> (#[trigger] h[i])@.len() == h.len()
}

/// The degree the constructor settles on: the caller's cap when one is
/// given, otherwise the table's own maximum degree `N = side - 1`.
pub open spec fn effective_degree(degree_cap: Option<usize>, side: int) -> int {
    match degree_cap {
        Some(d) => d as int,
        None => side - 1,
    }
}

/// A validated internal-field model: coefficient tables plus the degree
/// the series is summed to.  `g[n][m]` and `h[n][m]` carry the degree-`n`,
/// order-`m` coefficients; entries with `m > n` are present but unread,
/// and `h[n][0]` is unread as well.
#[derive(Clone, Debug)]
pub struct InternalFieldModel<T> {
    /// Cosine-series coefficients, `(N+1) x (N+1)`.
    pub g: Vec<Vec<T>>,
    /// Sine-series coefficients, same shape as `g`.
    pub h: Vec<Vec<T>>,
    /// Evaluation degree, within `1 ..= N`.
    pub degree: usize,
}

impl<T> InternalFieldModel<T> {
    /// The invariant every constructed model satisfies.
    pub open spec fn well_formed(&self) -> bool {
        &&& tables_matched(self.g@, self.h@)
        &&& 1 <= self.degree
        &&& self.degree < self.g@.len()
    }

    /// Validates the tables and the requested degree; on success the model
    /// holds the tables unchanged.  Rejects non-square or mismatched
    /// tables, and degrees outside `1 ..= N`.
    pub fn new(g: Vec<Vec<T>>, h: Vec<Vec<T>>, degree_cap: Option<usize>) -> (r: Result<
        Self,
        ModelError,
    >)
        ensures
            match r {
                Ok(model) => {
                    &&& tables_matched(g@, h@)
                    &&& 1 <= effective_degree(degree_cap, g@.len() as int) <= g@.len() - 1
                    &&& model.g@ == g@
                    &&& model.h@ == h@
                    &&& model.degree == effective_degree(degree_cap, g@.len() as int)
                    &&& model.well_formed()
                },
                Err(e) => {
                    &&& (e == ModelError::ShapeMismatch <==> !tables_matched(g@, h@))
                    &&& (e == ModelError::DegreeOutOfRange <==> tables_matched(g@, h@) && !(1
                        <= effective_degree(degree_cap, g@.len() as int) <= g@.len() - 1))
                    &&& e != ModelError::UnknownModelName
                },
            },
    {
        let n_rows: usize = g.len();
        if h.len() != n_rows {
            return Err(ModelError::ShapeMismatch);
        }
        let mut i: usize = 0;
        while i < n_rows
            invariant
                i <= n_rows,
                n_rows == g@.len(),
                n_rows == h@.len(),
                forall|a: int| 0 <= a < i ==> (#[trigger] g@[a])@.len() == n_rows,
                forall|a: int| 0 <= a < i ==> (#[trigger] h@[a])@.len() == n_rows,
            decreases n_rows - i,
        {
            if g[i].len() != n_rows || h[i].len() != n_rows {
                return Err(ModelError::ShapeMismatch);
            }
            i = i + 1;
        }
        if n_rows == 0 {
            return Err(ModelError::DegreeOutOfRange);
        }
        let n_max: usize = n_rows - 1;
        let degree: usize = match degree_cap {
            Some(d) => d,
            None => n_max,
        };
        if degree < 1 || degree > n_max {
            return Err(ModelError::DegreeOutOfRange);
        }
        Ok(InternalFieldModel { g, h, degree })
    }

    /// The degree-`n`, order-`m` cosine coefficient.
    pub fn coeff_g(&self, n: usize, m: usize) -> (r: &T)
        requires
            self.well_formed(),
            m <= n <= self.degree,
        ensures
            *r == self.g@[n as int]@[m as int],
    {
        &self.g[n][m]
    }

    /// The degree-`n`, order-`m` sine coefficient; the order-zero column
    /// is never read by the series.
    pub fn coeff_h(&self, n: usize, m: usize) -> (r: &T)
        requires
            self.well_formed(),
            m <= n <= self.degree,
        ensures
            *r == self.h@[n as int]@[m as int],
    {
        &self.h[n][m]
    }

    /// The maximum degree the tables support, `N = side - 1`.
    pub fn max_degree(&self) -> (r: usize)
        requires
            self.well_formed(),
        ensures
            r == self.g@.len() - 1,
    {
        self.g.len() - 1
    }
}

} // verus!
