//! A published release and the lookup of assets in it.

use vstd::prelude::*;
use crate::error::UpdateError;

verus! {

/// One published release of a project: its tag and the names of the assets
/// attached to it, in the order in which the release host lists them.
#[derive(Clone, Debug, PartialEq, Eq)]
pub struct ReleaseDescriptor {
    pub tag: String,
    pub asset_names: Vec<String>,
}

/// What a [`ReleaseDescriptor`] stands for.
pub struct ReleaseView {
    pub tag: Seq<char>,
    pub asset_names: Seq<Seq<char>>,
}

impl View for ReleaseDescriptor {
    type V = ReleaseView;

    open spec fn view(&self) -> ReleaseView {
        ReleaseView { tag: self.tag@, asset_names: self.asset_names.deep_view() }
    }
}

/// Whether `name` ends with `suffix`.
pub open spec fn has_suffix(name: Seq<char>, suffix: Seq<char>) -> bool {
    suffix.len() <= name.len() && name.subrange(name.len() - suffix.len(), name.len() as int)
        == suffix
}

/// The least index at which `wanted` holds of an asset name, if there is one.
pub open spec fn first_match(names: Seq<Seq<char>>, wanted: spec_fn(Seq<char>) -> bool) -> Option<
    int,
>
    decreases names.len(),
{
    if names.len() == 0 {
        None
    } else if wanted(names[0]) {
        Some(0)
    } else {
        match first_match(names.drop_first(), wanted) {
            Some(i) => Some(i + 1),
            None => None,
        }
    }
}

/// The test for an asset name to be exactly `name`.
pub open spec fn named(name: Seq<char>) -> spec_fn(Seq<char>) -> bool {
    |n: Seq<char>| n == name
}

/// The test for an asset name to end with `suffix`.
pub open spec fn ending_with(suffix: Seq<char>) -> spec_fn(Seq<char>) -> bool {
    |n: Seq<char>| has_suffix(n, suffix)
}

impl ReleaseView {
    /// The position of the first asset whose name is exactly `name`.
    pub open spec fn position_of(self, name: Seq<char>) -> Option<int> {
        first_match(self.asset_names, named(name))
    }

    /// The position of the first asset whose name ends with `suffix`.
    pub open spec fn position_with_suffix(self, suffix: Seq<char>) -> Option<int> {
        first_match(self.asset_names, ending_with(suffix))
    }

    /// The name of the first asset whose name ends with `suffix`, or
    /// `AssetNotFound` where no name does.
    pub open spec fn select_with_suffix(self, suffix: Seq<char>) -> Result<Seq<char>, UpdateError> {
        match self.position_with_suffix(suffix) {
            Some(i) => Ok(self.asset_names[i]),
            None => Err(UpdateError::AssetNotFound),
        }
    }
}

/// `first_match` returns the least index at which `wanted` holds, and `None`
/// exactly when it holds nowhere.
pub proof fn lemma_first_match(names: Seq<Seq<char>>, wanted: spec_fn(Seq<char>) -> bool)
    ensures
        match first_match(names, wanted) {
            Some(i) => 0 <= i < names.len() && wanted(names[i]) && forall|j: int|
                0 <= j < i ==> !wanted(#[trigger] names[j]),
            None => forall|j: int| 0 <= j < names.len() ==> !wanted(#[trigger] names[j]),
        },
    decreases names.len(),
{
    if names.len() > 0 && !wanted(names[0]) {
        let rest = names.drop_first();
        lemma_first_match(rest, wanted);
        assert(forall|j: int| 0 < j < names.len() ==> names[j] == rest[j - 1]);
    }
}

/// An index at which `wanted` holds and before which it holds nowhere is the
/// one that `first_match` returns.
pub proof fn lemma_first_match_is(
    names: Seq<Seq<char>>,
    wanted: spec_fn(Seq<char>) -> bool,
    found: Option<int>,
)
    requires
        match found {
            Some(i) => 0 <= i < names.len() && wanted(names[i]) && forall|j: int|
                0 <= j < i ==> !wanted(#[trigger] names[j]),
            None => forall|j: int| 0 <= j < names.len() ==> !wanted(#[trigger] names[j]),
        },
    ensures
        first_match(names, wanted) == found,
{
    lemma_first_match(names, wanted);
    match (first_match(names, wanted), found) {
        (Some(a), Some(b)) => {
            if a < b {
                assert(!wanted(names[a]));
            } else if b < a {
                assert(!wanted(names[b]));
            }
        },
        (Some(a), None) => {
            assert(!wanted(names[a]));
        },
        (None, Some(b)) => {
            assert(!wanted(names[b]));
        },
        (None, None) => {},
    }
}

/// Resolving an asset by name finds the first asset of exactly that name,
/// and finds none only where the release holds no asset of that name.
pub proof fn lemma_position_of(release: ReleaseView, name: Seq<char>)
    ensures
        match release.position_of(name) {
            Some(i) => 0 <= i < release.asset_names.len() && release.asset_names[i] == name
                && forall|j: int| 0 <= j < i ==> #[trigger] release.asset_names[j] != name,
            None => forall|j: int|
                0 <= j < release.asset_names.len() ==> #[trigger] release.asset_names[j] != name,
        },
{
    lemma_first_match(release.asset_names, named(name));
}

/// Selecting by suffix picks the first asset, in the order of the release,
/// whose name ends with the suffix, and fails with `AssetNotFound` exactly
/// when no name ends with it.
pub proof fn lemma_selection_is_first_match(release: ReleaseView, suffix: Seq<char>)
    ensures
        match release.select_with_suffix(suffix) {
            Ok(name) => exists|i: int|
                0 <= i < release.asset_names.len() && #[trigger] release.asset_names[i] == name
                    && has_suffix(name, suffix) && forall|j: int|
                    0 <= j < i ==> !has_suffix(#[trigger] release.asset_names[j], suffix),
            Err(error) => error == UpdateError::AssetNotFound && forall|j: int|
                0 <= j < release.asset_names.len() ==> !has_suffix(
                    #[trigger] release.asset_names[j],
                    suffix,
                ),
        },
{
    lemma_first_match(release.asset_names, ending_with(suffix));
}

/// Whether `name` ends with `suffix`, by `str::ends_with`: true exactly when
/// the last characters of `name` are those of `suffix`.
#[verifier::external_body]
fn ends_with(name: &str, suffix: &str) -> (found: bool)
    ensures
        found == has_suffix(name@, suffix@),
{
    name.ends_with(suffix)
}

impl ReleaseDescriptor {
    /// Resolves an asset by exact name: the position of the first asset named
    /// `name`, or `AssetNotFound` where the release holds none.
    pub fn find_asset(&self, name: &String) -> (found: Result<usize, UpdateError>)
        ensures
            match self@.position_of(name@) {
                Some(i) => found == Ok::<usize, UpdateError>(i as usize),
                None => found == Err::<usize, UpdateError>(UpdateError::AssetNotFound),
            },
            found matches Ok(i) ==> i < self.asset_names.len() && self.asset_names[i as int]@
                == name@,
    {
        let ghost names = self@.asset_names;
        let ghost wanted = named(name@);
        let mut i: usize = 0;
        while i < self.asset_names.len()
            invariant
                i <= self.asset_names.len(),
                names == self@.asset_names,
                wanted == named(name@),
                forall|j: int| 0 <= j < i ==> !wanted(#[trigger] names[j]),
            decreases self.asset_names.len() - i,
        {
            if self.asset_names[i] == *name {
                proof {
                    assert(names[i as int] == name@);
                    assert(wanted(names[i as int]));
                    lemma_first_match_is(names, wanted, Some(i as int));
                }
                return Ok(i);
            }
            assert(names[i as int] == self.asset_names[i as int]@);
            i = i + 1;
        }
        proof {
            lemma_first_match_is(names, wanted, None);
        }
        Err(UpdateError::AssetNotFound)
    }

    /// Selects the asset to install: the first one, in the order of the
    /// release, whose name ends with `suffix`. Fails with `AssetNotFound`
    /// exactly when no name ends with it.
    pub fn select_asset(&self, suffix: &str) -> (found: Result<usize, UpdateError>)
        ensures
            match self@.position_with_suffix(suffix@) {
                Some(i) => found == Ok::<usize, UpdateError>(i as usize),
                None => found == Err::<usize, UpdateError>(UpdateError::AssetNotFound),
            },
            found matches Ok(i) ==> i < self.asset_names.len() && Ok::<Seq<char>, UpdateError>(
                self.asset_names[i as int]@,
            ) == self@.select_with_suffix(suffix@),
    {
        let ghost names = self@.asset_names;
        let ghost wanted = ending_with(suffix@);
        let mut i: usize = 0;
        while i < self.asset_names.len()
            invariant
                i <= self.asset_names.len(),
                names == self@.asset_names,
                wanted == ending_with(suffix@),
                forall|j: int| 0 <= j < i ==> !wanted(#[trigger] names[j]),
            decreases self.asset_names.len() - i,
        {
            if ends_with(self.asset_names[i].as_str(), suffix) {
                proof {
                    assert(names[i as int] == self.asset_names[i as int]@);
                    assert(wanted(names[i as int]));
                    lemma_first_match_is(names, wanted, Some(i as int));
                }
                return Ok(i);
            }
            assert(names[i as int] == self.asset_names[i as int]@);
            i = i + 1;
        }
        proof {
            lemma_first_match_is(names, wanted, None);
        }
        Err(UpdateError::AssetNotFound)
    }
}

} // verus!
