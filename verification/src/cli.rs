//! Completion of directory paths as the user types them.

use vstd::prelude::*;
use crate::text::{ends_with, is_prefix, is_suffix, starts_with};

verus! {

/// Completes directory paths as they are typed: it proposes the subdirectories whose
/// names extend the last component typed.
#[derive(Clone, Copy, Debug, Default)]
pub struct FilePathCompleter;

/// One entry of a directory listing: its name and whether it is a directory.
pub struct DirEntryName {
    pub name: String,
    pub is_dir: bool,
}

/// The lower-case form of a string, as `str::to_lowercase` gives it (by Unicode's case
/// mappings).
pub uninterp spec fn lowercase_of(s: Seq<char>) -> Seq<char>;

/// Calls `str::to_lowercase`. The result is claimed to be `lowercase_of` of the argument's
/// characters: it depends on them alone.
#[verifier::external_body]
fn to_lowercase(s: &str) -> (r: String)
    ensures
        r@ == lowercase_of(s@),
{
    s.to_lowercase()
}

/// The folder to list and the name prefix to match for the typed text `input`, where
/// `parent` and `file_name` are the parent and last component of `input` as a path, and
/// `input_is_dir` tells whether it names an existing directory: text that ends with the
/// separator lists itself (if it is a directory); other non-empty text lists its parent,
/// matching its last component; empty text lists nothing.
pub open spec fn scan_target_of(
    input: Seq<char>,
    input_is_dir: bool,
    parent: Seq<char>,
    file_name: Seq<char>,
    separator: Seq<char>,
) -> Option<(Seq<char>, Seq<char>)> {
    let ends_with_separator = is_suffix(separator, input);
    if ends_with_separator && !input_is_dir {
        None
    } else {
        let scan = if !ends_with_separator && input.len() > 0 { parent } else { input };
        let stub = if !ends_with_separator && input.len() > 0 { file_name } else { Seq::empty() };
        if scan.len() == 0 {
            None
        } else {
            Some((scan, stub))
        }
    }
}

/// The suggestion that a directory entry gives, where the folder `scan` is listed for the
/// prefix `stub`: a subdirectory whose name, in lower case, extends the stub's (and is not
/// equal to it) is proposed as `scan`, a separator unless `scan` ends with one, and its name.
pub open spec fn suggestion_of(
    scan: Seq<char>,
    stub: Seq<char>,
    entry: DirEntryName,
    separator: Seq<char>,
) -> Option<Seq<char>> {
    let name = lowercase_of(entry.name@);
    let prefix = lowercase_of(stub);
    if is_prefix(prefix, name) && name != prefix && entry.is_dir {
        Some(scan + (if is_suffix(separator, scan) { Seq::empty() } else { separator }) + entry.name@)
    } else {
        None
    }
}

/// The suggestions that the first `n` entries give, in listing order.
pub open spec fn suggestions_of(
    scan: Seq<char>,
    stub: Seq<char>,
    entries: Seq<DirEntryName>,
    separator: Seq<char>,
    n: int,
) -> Seq<Seq<char>>
    decreases n,
{
    if n <= 0 {
        seq![]
    } else {
        let prev = suggestions_of(scan, stub, entries, separator, n - 1);
        match suggestion_of(scan, stub, entries[n - 1], separator) {
            Some(s) => prev.push(s),
            None => prev,
        }
    }
}

/// The text that accepting `selection` gives: a directory gets a trailing separator
/// unless it has one; anything else stays as it is.
pub open spec fn completion_of(selection: Seq<char>, is_dir: bool, separator: Seq<char>) -> Seq<
    char,
> {
    if is_dir && !is_suffix(separator, selection) {
        selection + separator
    } else {
        selection
    }
}

impl FilePathCompleter {
    /// The folder to list and the name prefix to match for the typed text `input`; `None`
    /// where nothing is to be suggested.
    pub fn scan_target(
        input: &str,
        input_is_dir: bool,
        parent: &str,
        file_name: &str,
        separator: &str,
    ) -> (r: Option<(String, String)>)
        ensures
            match scan_target_of(input@, input_is_dir, parent@, file_name@, separator@) {
                None => r is None,
                Some((scan, stub)) => r matches Some(p) && p.0@ == scan && p.1@ == stub,
            },
    {
        let ends_with_separator = ends_with(input, separator);
        if ends_with_separator && !input_is_dir {
            return None;
        }
        let (scan_path, stub) = if !ends_with_separator && !input.is_empty() {
            (parent, file_name)
        } else {
            (input, "")
        };
        proof {
            assert(""@ =~= Seq::<char>::empty()) by {
                reveal_strlit("");
            }
        }
        if scan_path.is_empty() {
            return None;
        }
        Some((scan_path.to_owned(), stub.to_owned()))
    }

    /// The subdirectories of `scan_path` (listed as `entries`) to propose for the prefix
    /// `stub`, in listing order.
    pub fn suggestions(
        scan_path: &str,
        stub: &str,
        entries: &Vec<DirEntryName>,
        separator: &str,
    ) -> (r: Vec<String>)
        ensures
            r@.map_values(|s: String| s@) == suggestions_of(
                scan_path@,
                stub@,
                entries@,
                separator@,
                entries.len() as int,
            ),
    {
        let stub_lowercase = to_lowercase(stub);
        let joiner = if ends_with(scan_path, separator) { "" } else { separator };
        proof {
            assert(""@ =~= Seq::<char>::empty()) by {
                reveal_strlit("");
            }
        }
        let mut out: Vec<String> = Vec::new();
        let n = entries.len();
        let mut k: usize = 0;
        while k < n
            invariant
                k <= n,
                n == entries.len(),
                stub_lowercase@ == lowercase_of(stub@),
                joiner@ == (if is_suffix(separator@, scan_path@) { Seq::empty() } else { separator@ }),
                out@.map_values(|s: String| s@) == suggestions_of(
                    scan_path@,
                    stub@,
                    entries@,
                    separator@,
                    k as int,
                ),
            decreases n - k,
        {
            let entry = &entries[k];
            let name_lowercase = to_lowercase(entry.name.as_str());
            let is_partial_match = starts_with(name_lowercase.as_str(), stub_lowercase.as_str())
                && !(name_lowercase == stub_lowercase);
            if is_partial_match && entry.is_dir {
                let mut suggestion = scan_path.to_owned();
                suggestion.append(joiner);
                suggestion.append(entry.name.as_str());
                let ghost prev = out@;
                out.push(suggestion);
                assert(out@.map_values(|s: String| s@) =~= prev.map_values(|s: String| s@).push(
                    suggestion@,
                ));
            }
            k += 1;
        }
        out
    }

    /// The text that replaces the input when the user accepts `selection`: a directory
    /// gets a trailing separator unless it has one.
    pub fn completion(selection: String, is_dir: bool, separator: &str) -> (r: String)
        ensures
            r@ == completion_of(selection@, is_dir, separator@),
    {
        let mut selection = selection;
        if is_dir && !ends_with(selection.as_str(), separator) {
            selection.append(separator);
        }
        selection
    }
}

} // verus!

verus! {

/// What happened in the dialog that asks for a directory.
#[derive(Clone, Copy, Debug, PartialEq, Eq, Structural)]
pub enum SelectorEvent {
    /// The user typed a path; whether it names an existing directory.
    Answered { is_dir: bool },
    /// The prompt for a path failed.
    PromptFailed,
    /// The user chose, for a path that is no directory, to create it (or else to type
    /// another).
    Chose { create: bool },
    /// The prompt for that choice failed.
    ChoiceFailed,
    /// The directory was created, or its creation failed.
    Created { ok: bool },
}

/// Why the dialog asks for a path again.
#[derive(Clone, Copy, Debug, PartialEq, Eq, Structural)]
pub enum RetryReason {
    /// The path is no directory (and creating one is not offered).
    NotADirectory,
    /// The prompt failed.
    PromptFailed,
    /// The user chose to type another path.
    ChoseAnother,
    /// The choice prompt failed; nothing is said.
    ChoiceFailed,
    /// The directory could not be created.
    CreationFailed,
}

/// What the dialog does next.
#[derive(Clone, Copy, Debug, PartialEq, Eq, Structural)]
pub enum SelectorAction {
    /// Answer with the typed directory, in canonical form.
    AcceptExisting,
    /// Say that the path is no directory and offer to create it.
    OfferCreation,
    /// Create the directory.
    Create,
    /// Answer with the directory just created.
    AcceptCreated,
    /// Ask for a path again.
    AskAgain(RetryReason),
}

/// The dialog's next step after `event`, where `allow_creation` tells whether it may
/// create a directory that does not exist: an existing directory is the answer; a path
/// that is none is offered for creation where that is allowed and asked again otherwise;
/// the created directory is the answer; every failure asks again.
pub open spec fn selector_step_of(allow_creation: bool, event: SelectorEvent) -> SelectorAction {
    match event {
        SelectorEvent::Answered { is_dir } => if is_dir {
            SelectorAction::AcceptExisting
        } else if allow_creation {
            SelectorAction::OfferCreation
        } else {
            SelectorAction::AskAgain(RetryReason::NotADirectory)
        },
        SelectorEvent::PromptFailed => SelectorAction::AskAgain(RetryReason::PromptFailed),
        SelectorEvent::Chose { create } => if create {
            SelectorAction::Create
        } else {
            SelectorAction::AskAgain(RetryReason::ChoseAnother)
        },
        SelectorEvent::ChoiceFailed => SelectorAction::AskAgain(RetryReason::ChoiceFailed),
        SelectorEvent::Created { ok } => if ok {
            SelectorAction::AcceptCreated
        } else {
            SelectorAction::AskAgain(RetryReason::CreationFailed)
        },
    }
}

/// The next step of the dialog that asks for a directory.
pub fn selector_step(allow_creation: bool, event: SelectorEvent) -> (a: SelectorAction)
    ensures
        a == selector_step_of(allow_creation, event),
{
    match event {
        SelectorEvent::Answered { is_dir } => {
            if is_dir {
                SelectorAction::AcceptExisting
            } else if allow_creation {
                SelectorAction::OfferCreation
            } else {
                SelectorAction::AskAgain(RetryReason::NotADirectory)
            }
        },
        SelectorEvent::PromptFailed => SelectorAction::AskAgain(RetryReason::PromptFailed),
        SelectorEvent::Chose { create } => {
            if create {
                SelectorAction::Create
            } else {
                SelectorAction::AskAgain(RetryReason::ChoseAnother)
            }
        },
        SelectorEvent::ChoiceFailed => SelectorAction::AskAgain(RetryReason::ChoiceFailed),
        SelectorEvent::Created { ok } => {
            if ok {
                SelectorAction::AcceptCreated
            } else {
                SelectorAction::AskAgain(RetryReason::CreationFailed)
            }
        },
    }
}

/// The dialog only ever answers with a directory that exists or that it has just created:
/// it accepts a typed path only on the event that the path is a directory, accepts a
/// created one only on the event that its creation succeeded, and offers creation only
/// where creation is allowed.
pub proof fn selector_accepts_only_directories(allow_creation: bool, event: SelectorEvent)
    ensures
        selector_step_of(allow_creation, event) == SelectorAction::AcceptExisting
            ==> event == (SelectorEvent::Answered { is_dir: true }),
        selector_step_of(allow_creation, event) == SelectorAction::AcceptCreated
            ==> event == (SelectorEvent::Created { ok: true }),
        selector_step_of(allow_creation, event) == SelectorAction::OfferCreation
            ==> allow_creation,
{
}

} // verus!

verus! {

/// Whether the listing entry `e` is a subdirectory whose name, in lower case, extends the
/// typed prefix `stub` in lower case and is longer than it.
pub open spec fn extends_typed_prefix(stub: Seq<char>, e: DirEntryName) -> bool {
    &&& e.is_dir
    &&& is_prefix(lowercase_of(stub), lowercase_of(e.name@))
    &&& lowercase_of(e.name@) != lowercase_of(stub)
}

/// The path of the entry `name` in the folder `scan`: the folder, a separator where the
/// folder does not end with one, and the name.
pub open spec fn path_in(scan: Seq<char>, separator: Seq<char>, name: Seq<char>) -> Seq<char> {
    if is_suffix(separator, scan) {
        scan + name
    } else {
        scan + separator + name
    }
}

/// The suggestion that one entry gives is its path where it extends the typed prefix.
proof fn suggestion_is_the_path_of_a_match(
    scan: Seq<char>,
    stub: Seq<char>,
    e: DirEntryName,
    separator: Seq<char>,
)
    ensures
        suggestion_of(scan, stub, e, separator) == if extends_typed_prefix(stub, e) {
            Some(path_in(scan, separator, e.name@))
        } else {
            None
        },
{
    assert(scan + Seq::<char>::empty() =~= scan);
}

/// Whether `s` is the path in `scan` of one of the first `n` entries that extend the
/// typed prefix.
pub open spec fn is_path_of_a_match(
    s: Seq<char>,
    scan: Seq<char>,
    stub: Seq<char>,
    entries: Seq<DirEntryName>,
    separator: Seq<char>,
    n: int,
) -> bool {
    exists|j: int|
        0 <= j < n && #[trigger] extends_typed_prefix(stub, entries[j]) && s == path_in(
            scan,
            separator,
            entries[j].name@,
        )
}

/// Each suggestion is the path of an entry that extends the typed prefix.
proof fn each_suggestion_is_a_match(
    scan: Seq<char>,
    stub: Seq<char>,
    entries: Seq<DirEntryName>,
    separator: Seq<char>,
    n: int,
)
    requires
        0 <= n <= entries.len(),
    ensures
        suggestions_of(scan, stub, entries, separator, n).len() <= n,
        forall|k: int|
            0 <= k < suggestions_of(scan, stub, entries, separator, n).len() ==> is_path_of_a_match(
                #[trigger] suggestions_of(scan, stub, entries, separator, n)[k],
                scan,
                stub,
                entries,
                separator,
                n,
            ),
    decreases n,
{
    if n > 0 {
        each_suggestion_is_a_match(scan, stub, entries, separator, n - 1);
        suggestion_is_the_path_of_a_match(scan, stub, entries[n - 1], separator);
        let prev = suggestions_of(scan, stub, entries, separator, n - 1);
        let out = suggestions_of(scan, stub, entries, separator, n);
        assert forall|k: int| 0 <= k < out.len() implies is_path_of_a_match(
            #[trigger] out[k],
            scan,
            stub,
            entries,
            separator,
            n,
        ) by {
            if k < prev.len() {
                assert(out[k] == prev[k]);
                assert(is_path_of_a_match(prev[k], scan, stub, entries, separator, n - 1));
                let j = choose|j: int|
                    0 <= j < n - 1 && #[trigger] extends_typed_prefix(stub, entries[j]) && prev[k]
                        == path_in(scan, separator, entries[j].name@);
                assert(extends_typed_prefix(stub, entries[j]));
            } else {
                assert(out[k] == path_in(scan, separator, entries[n - 1].name@));
                assert(extends_typed_prefix(stub, entries[n - 1]));
            }
        }
    }
}

/// Each entry that extends the typed prefix is suggested.
proof fn each_match_is_suggested(
    scan: Seq<char>,
    stub: Seq<char>,
    entries: Seq<DirEntryName>,
    separator: Seq<char>,
    n: int,
)
    requires
        0 <= n <= entries.len(),
    ensures
        forall|j: int|
            0 <= j < n && #[trigger] extends_typed_prefix(stub, entries[j]) ==> exists|k: int|
                #![trigger suggestions_of(scan, stub, entries, separator, n)[k]]
                0 <= k < suggestions_of(scan, stub, entries, separator, n).len()
                    && suggestions_of(scan, stub, entries, separator, n)[k] == path_in(
                    scan,
                    separator,
                    entries[j].name@,
                ),
    decreases n,
{
    if n > 0 {
        each_match_is_suggested(scan, stub, entries, separator, n - 1);
        suggestion_is_the_path_of_a_match(scan, stub, entries[n - 1], separator);
        let prev = suggestions_of(scan, stub, entries, separator, n - 1);
        let out = suggestions_of(scan, stub, entries, separator, n);
        assert forall|j: int| 0 <= j < n && #[trigger] extends_typed_prefix(stub, entries[j])
            implies exists|k: int| #![trigger out[k]] 0 <= k < out.len() && out[k] == path_in(
            scan,
            separator,
            entries[j].name@,
        ) by {
            if j < n - 1 {
                let k = choose|k: int| 0 <= k < prev.len() && prev[k] == path_in(
                    scan,
                    separator,
                    entries[j].name@,
                );
                assert(out[k] == prev[k]);
            } else {
                assert(out[prev.len() as int] == path_in(scan, separator, entries[j].name@));
            }
        }
    }
}

/// The suggestions for a listing are the paths of exactly the subdirectories that extend
/// the typed prefix: each suggestion is such a subdirectory's path in the listed folder,
/// each such subdirectory is suggested, and there are no more suggestions than entries.
pub proof fn suggestions_are_the_matching_subdirectories(
    scan: Seq<char>,
    stub: Seq<char>,
    entries: Seq<DirEntryName>,
    separator: Seq<char>,
)
    ensures
        suggestions_of(scan, stub, entries, separator, entries.len() as int).len()
            <= entries.len(),
        forall|k: int|
            0 <= k < suggestions_of(scan, stub, entries, separator, entries.len() as int).len()
                ==> is_path_of_a_match(
                #[trigger] suggestions_of(scan, stub, entries, separator, entries.len() as int)[k],
                scan,
                stub,
                entries,
                separator,
                entries.len() as int,
            ),
        forall|j: int|
            0 <= j < entries.len() && #[trigger] extends_typed_prefix(stub, entries[j])
                ==> exists|k: int|
                #![trigger suggestions_of(scan, stub, entries, separator, entries.len() as int)[k]]
                0 <= k < suggestions_of(scan, stub, entries, separator, entries.len() as int).len()
                    && suggestions_of(scan, stub, entries, separator, entries.len() as int)[k]
                    =~= path_in(scan, separator, entries[j].name@),
{
    each_suggestion_is_a_match(scan, stub, entries, separator, entries.len() as int);
    each_match_is_suggested(scan, stub, entries, separator, entries.len() as int);
}

} // verus!

verus! {

/// Accepting a directory leaves text that ends with the separator and begins with the
/// selection; accepting anything else leaves the selection as it is; and accepting the
/// accepted text again changes nothing.
pub proof fn completion_ends_directories_with_the_separator(
    selection: Seq<char>,
    is_dir: bool,
    separator: Seq<char>,
)
    ensures
        is_dir ==> is_suffix(separator, completion_of(selection, is_dir, separator)),
        is_prefix(selection, completion_of(selection, is_dir, separator)),
        !is_dir ==> completion_of(selection, is_dir, separator) == selection,
        completion_of(completion_of(selection, is_dir, separator), is_dir, separator)
            == completion_of(selection, is_dir, separator),
{
    let c = completion_of(selection, is_dir, separator);
    assert(c.subrange(0, selection.len() as int) =~= selection);
    if is_dir && !is_suffix(separator, selection) {
        assert(c.subrange(c.len() - separator.len(), c.len() as int) =~= separator);
    }
}

} // verus!
