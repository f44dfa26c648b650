//! Lockfile detection: map a directory listing to the package manager whose
//! lockfile appears first in it.
//!
//! A listing is a sequence of entry names in the order the operating system
//! reported them; an entry whose name is not valid text is carried as `None`
//! and skipped. Detection keeps that order: when a directory holds more than
//! one recognized lockfile, whichever the listing surfaces first wins.

use vstd::prelude::*;
use crate::text::str_eq;

verus! {

/// The package managers this tool can recognize and dispatch to.
#[derive(Clone, Copy, Debug, PartialEq, Eq, Structural)]
pub enum PmType {
    Npm,
    Yarn,
    Pnpm,
}

impl PmType {
    /// The name of this package manager's executable.
    pub open spec fn spec_name(self) -> Seq<char> {
        match self {
            PmType::Npm => "npm"@,
            PmType::Yarn => "yarn"@,
            PmType::Pnpm => "pnpm"@,
        }
    }

    /// The executable name to resolve on the search path for this manager.
    pub fn get_name(self) -> (name: String)
        ensures
            name@ == self.spec_name(),
    {
        match self {
            PmType::Npm => "npm".to_owned(),
            PmType::Yarn => "yarn".to_owned(),
            PmType::Pnpm => "pnpm".to_owned(),
        }
    }
}

/// The fixed lockfile rule: which manager, if any, a filename stands for.
pub open spec fn spec_filename_match(name: Seq<char>) -> Option<PmType> {
    if name == "yarn.lock"@ {
        Some(PmType::Yarn)
    } else if name == "pnpm-lock.yaml"@ {
        Some(PmType::Pnpm)
    } else if name == "package-lock.json"@ {
        Some(PmType::Npm)
    } else {
        None
    }
}

/// Matches one filename against the lockfile rule.
pub fn filename_match(filename: &str) -> (pm: Option<PmType>)
    ensures
        pm == spec_filename_match(filename@),
{
    if str_eq(filename, "yarn.lock") {
        Some(PmType::Yarn)
    } else if str_eq(filename, "pnpm-lock.yaml") {
        Some(PmType::Pnpm)
    } else if str_eq(filename, "package-lock.json") {
        Some(PmType::Npm)
    } else {
        None
    }
}

/// Whether one listing entry fails to name a known lockfile: either its name
/// was not valid text, or the name matches no lockfile rule.
pub open spec fn entry_matches_none(entry: Option<Seq<char>>) -> bool {
    match entry {
        Some(name) => spec_filename_match(name) is None,
        None => true,
    }
}

/// The manager of the first entry in the listing that names a known
/// lockfile, or `None` when no entry does.
pub open spec fn spec_detect(names: Seq<Option<Seq<char>>>) -> Option<PmType>
    decreases names.len(),
{
    if names.len() == 0 {
        None
    } else {
        match names.first() {
            Some(name) => match spec_filename_match(name) {
                Some(pm) => Some(pm),
                None => spec_detect(names.drop_first()),
            },
            None => spec_detect(names.drop_first()),
        }
    }
}

/// The views of a listing's entry names: `Some` of the characters where the
/// operating system's name was valid text, `None` where it was not.
pub open spec fn entry_views(entries: Seq<Option<String>>) -> Seq<Option<Seq<char>>> {
    entries.map(
        |i: int, entry: Option<String>|
            match entry {
                Some(name) => Some(name@),
                None => None::<Seq<char>>,
            },
    )
}

/// Scans one directory listing and returns the manager of the first entry
/// that names a known lockfile, in listing order.
pub fn detect_pm(entries: &Vec<Option<String>>) -> (pm: Option<PmType>)
    ensures
        pm == spec_detect(entry_views(entries@)),
{
    let ghost all = entry_views(entries@);
    proof {
        assert(all.skip(0) =~= all);
    }
    let mut i: usize = 0;
    while i < entries.len()
        invariant
            i <= entries.len(),
            all == entry_views(entries@),
            all.len() == entries@.len(),
            spec_detect(all) == spec_detect(all.skip(i as int)),
        decreases entries.len() - i,
    {
        proof {
            assert(all.skip(i as int).first() == all[i as int]);
            assert(all.skip(i as int).drop_first() =~= all.skip(i as int + 1));
        }
        match &entries[i] {
            Some(name) => {
                match filename_match(name.as_str()) {
                    Some(pm) => {
                        return Some(pm);
                    },
                    None => {},
                }
            },
            None => {},
        }
        i += 1;
    }
    proof {
        assert(all.skip(entries@.len() as int) =~= Seq::<Option<Seq<char>>>::empty());
    }
    None
}

/// A directory whose only entry names a recognized lockfile is detected as
/// that lockfile's manager.
pub proof fn lemma_single_lockfile_detected(name: Seq<char>)
    requires
        spec_filename_match(name) is Some,
    ensures
        spec_detect(seq![Some(name)]) == spec_filename_match(name),
{
    assert(seq![Some(name)].first() == Some(name));
}

/// A listing in which no entry names a known lockfile yields no detection.
pub proof fn lemma_no_lockfile_none(names: Seq<Option<Seq<char>>>)
    requires
        forall|i: int| 0 <= i < names.len() ==> entry_matches_none(#[trigger] names[i]),
    ensures
        spec_detect(names) is None,
    decreases names.len(),
{
    if names.len() > 0 {
        assert(names.first() == names[0]);
        assert(forall|i: int|
            0 <= i < names.drop_first().len() ==> #[trigger] names.drop_first()[i] == names[i + 1]);
        lemma_no_lockfile_none(names.drop_first());
    }
}

/// Inserting an entry that names no known lockfile anywhere in a listing
/// leaves detection unchanged: unrelated entries are skipped, not errors.
pub proof fn lemma_unrelated_entry_skipped(
    names: Seq<Option<Seq<char>>>,
    i: int,
    entry: Option<Seq<char>>,
)
    requires
        0 <= i <= names.len(),
        entry_matches_none(entry),
    ensures
        spec_detect(names.insert(i, entry)) == spec_detect(names),
    decreases names.len(),
{
    let grown = names.insert(i, entry);
    if i == 0 {
        assert(grown.first() == entry);
        assert(grown.drop_first() =~= names);
    } else {
        assert(grown.first() == names.first());
        assert(grown.drop_first() =~= names.drop_first().insert(i - 1, entry));
        lemma_unrelated_entry_skipped(names.drop_first(), i - 1, entry);
    }
}

} // verus!
