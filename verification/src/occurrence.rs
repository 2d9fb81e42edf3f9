//! A concrete error value of a taxonomy that is kept as a table: the variant
//! it belongs to, its parsed application code and its diagnostic text.

use crate::info::ErrorInfo;
use crate::info::ToErrorInfo;
use crate::taxonomy::TaxonomyDescriptor;
use crate::taxonomy::TaxonomyView;
use vstd::prelude::*;

verus! {

/// An error value bound to its taxonomy. Its tag always names a variant.
pub struct Occurrence<'a, T> {
    taxonomy: &'a TaxonomyDescriptor,
    tag: usize,
    app_code: T,
    text: String,
}

impl<'a, T> Occurrence<'a, T> {
    #[verifier::type_invariant]
    spec fn tag_names_a_variant(self) -> bool {
        self.tag < self.taxonomy@.variants.len()
    }

    /// The taxonomy that the value belongs to.
    pub closed spec fn taxonomy(&self) -> TaxonomyView {
        self.taxonomy@
    }

    /// The tag of the value's variant.
    pub closed spec fn tag(&self) -> int {
        self.tag as int
    }

    /// The parsed application code of the value's variant.
    pub closed spec fn app_code(&self) -> T {
        self.app_code
    }

    /// The value's diagnostic text.
    pub closed spec fn text(&self) -> Seq<char> {
        self.text@
    }

    /// Binds a value to its taxonomy, or gives nothing where the tag names no
    /// variant of it.
    pub fn new(taxonomy: &'a TaxonomyDescriptor, tag: usize, app_code: T, text: &str) -> (bound: Option<Self>)
        ensures
            bound.is_some() == (tag < taxonomy@.variants.len()),
            bound matches Some(value) ==> value.taxonomy() == taxonomy@ && value.tag() == tag
                && value.app_code() == app_code && value.text() == text@,
    {
        if tag < taxonomy.variants.len() {
            Some(Occurrence { taxonomy, tag, app_code, text: text.to_owned() })
        } else {
            None
        }
    }
}

impl<'a, T: Copy> ToErrorInfo for Occurrence<'a, T> {
    type T = T;

    fn to_error_info(&self) -> (info: ErrorInfo<T>)
        ensures
            info@ == self.taxonomy().classification(self.tag(), self.app_code(), self.text()),
    {
        proof {
            use_type_invariant(self);
        }
        self.taxonomy.classify(self.tag, self.app_code, self.text.as_str())
    }
}

} // verus!
