//! The configuration and the resolver that picks which convention a
//! given file extension must follow.

use vstd::prelude::*;
use crate::text::str_eq;

verus! {

/// A per-extension convention assignment that takes precedence over the
/// default convention.
pub struct Override {
    /// The extension the rule applies to (without the dot; possibly empty).
    pub extension: String,
    /// The convention tag expected of files with that extension.
    pub convention: String,
}

/// Immutable configuration: a default convention tag plus an ordered
/// sequence of per-extension overrides (possibly empty). Constructed once
/// at startup and read-only thereafter.
pub struct Config {
    pub default_convention: String,
    pub overrides: Vec<Override>,
}

/// The convention tag that applies to extension `ext`: the convention of
/// the first override (in declaration order) whose extension equals `ext`,
/// else the default.
pub open spec fn spec_resolve(overrides: Seq<Override>, ext: Seq<char>, default: Seq<char>) -> Seq<char>
    decreases overrides.len(),
{
    if overrides.len() == 0 {
        default
    } else if overrides[0].extension@ == ext {
        overrides[0].convention@
    } else {
        spec_resolve(overrides.drop_first(), ext, default)
    }
}

impl Config {
    /// Resolver: the convention tag for a path whose extension is
    /// `extension` (an absent extension is passed as the empty string).
    /// The first matching override wins; when none matches, the default
    /// applies — absence of a match is the defined fallback, not an error.
    pub fn convention_for(&self, extension: &str) -> (r: &String)
        ensures
            r@ == spec_resolve(self.overrides@, extension@, self.default_convention@),
    {
        let n = self.overrides.len();
        proof {
            assert(self.overrides@.skip(0) =~= self.overrides@);
        }
        for i in 0..n
            invariant
                n == self.overrides@.len(),
                spec_resolve(self.overrides@, extension@, self.default_convention@)
                    == spec_resolve(self.overrides@.skip(i as int), extension@, self.default_convention@),
        {
            proof {
                assert(self.overrides@.skip(i as int)[0] == self.overrides@[i as int]);
            }
            if str_eq(self.overrides[i].extension.as_str(), extension) {
                return &self.overrides[i].convention;
            }
            proof {
                assert(self.overrides@.skip(i as int).drop_first() =~= self.overrides@.skip(
                    i as int + 1,
                ));
            }
        }
        &self.default_convention
    }
}

/// Law: when no override's extension equals `ext` (in particular when the
/// override list is empty), resolution returns the default convention.
pub proof fn lemma_resolve_default(overrides: Seq<Override>, ext: Seq<char>, default: Seq<char>)
    requires
        forall|i: int| 0 <= i < overrides.len() ==> (#[trigger] overrides[i]).extension@ != ext,
    ensures
        spec_resolve(overrides, ext, default) == default,
    decreases overrides.len(),
{
    if overrides.len() > 0 {
        assert(overrides[0].extension@ != ext);
        assert forall|i: int| 0 <= i < overrides.drop_first().len() implies (#[trigger] overrides.drop_first()[i]).extension@ != ext by {
            assert(overrides.drop_first()[i] == overrides[i + 1]);
        }
        lemma_resolve_default(overrides.drop_first(), ext, default);
    }
}

/// Law: among several overrides sharing one extension, the first in
/// declaration order decides; later ones are silently shadowed.
pub proof fn lemma_resolve_first_match(
    overrides: Seq<Override>,
    ext: Seq<char>,
    default: Seq<char>,
    i: int,
)
    requires
        0 <= i < overrides.len(),
        overrides[i].extension@ == ext,
        forall|j: int| 0 <= j < i ==> (#[trigger] overrides[j]).extension@ != ext,
    ensures
        spec_resolve(overrides, ext, default) == overrides[i].convention@,
    decreases i,
{
    if i > 0 {
        assert(overrides[0].extension@ != ext);
        assert(overrides.drop_first()[i - 1] == overrides[i]);
        assert forall|j: int| 0 <= j < i - 1 implies (#[trigger] overrides.drop_first()[j]).extension@ != ext by {
            assert(overrides.drop_first()[j] == overrides[j + 1]);
        }
        lemma_resolve_first_match(overrides.drop_first(), ext, default, i - 1);
    }
}

} // verus!
