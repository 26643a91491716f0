//! Scanning of project sources.

use vstd::prelude::*;
use vstd::string::*;
use crate::classes::Classes;
use crate::syntax::{derive_error_text, derives_nativeclass, Item, ItemKind};

verus! {

/// The names of the types among `items`, and among the items nested in them
/// at any depth, that derive `NativeClass`.
pub open spec fn discovered(items: Seq<Item>) -> Set<Seq<char>>
    decreases items,
{
    if items.len() == 0 {
        Set::empty()
    } else {
        let last = items[items.len() - 1];
        let before = discovered(items.subrange(0, items.len() - 1));
        let below = discovered(last.items@);
        if last.registers() {
            before.union(below).insert(last.name@)
        } else {
            before.union(below)
        }
    }
}

/// How many types among `items`, and among the items nested in them at any
/// depth, have a malformed derive list.
pub open spec fn malformed_count(items: Seq<Item>) -> nat
    decreases items,
{
    if items.len() == 0 {
        0
    } else {
        let last = items[items.len() - 1];
        let before = malformed_count(items.subrange(0, items.len() - 1));
        let below = malformed_count(last.items@);
        if last.malformed() {
            before + below + 1
        } else {
            before + below
        }
    }
}

/// Whether every message is the one that a malformed derive list gives.
pub open spec fn derive_errors(messages: Seq<String>) -> bool {
    forall|i: int| 0 <= i < messages.len() ==> (#[trigger] messages[i])@ == derive_error_text()
}

fn visit_items(items: &Vec<Item>, classes: &mut Classes, errors: &mut Vec<String>)
    requires
        old(classes).wf(),
        derive_errors(old(errors)@),
    ensures
        final(classes).wf(),
        final(classes)@ == old(classes)@.union(discovered(items@)),
        derive_errors(final(errors)@),
        final(errors)@.len() == old(errors)@.len() + malformed_count(items@),
    decreases items,
{
    let n: usize = items.len();
    let mut i: usize = 0;
    assert(items@.subrange(0, 0) =~= Seq::<Item>::empty());
    assert(classes@ =~= old(classes)@.union(discovered(items@.subrange(0, 0))));
    while i < n
        invariant
            i <= n,
            n == items@.len(),
            classes.wf(),
            classes@ == old(classes)@.union(discovered(items@.subrange(0, i as int))),
            derive_errors(errors@),
            errors@.len() == old(errors)@.len() + malformed_count(items@.subrange(0, i as int)),
        decreases n - i,
    {
        let item = &items[i];
        let ghost upto = items@.subrange(0, i + 1);
        assert(upto.subrange(0, upto.len() - 1) =~= items@.subrange(0, i as int));
        assert(upto[upto.len() - 1] == items@[i as int]);
        match item.kind {
            ItemKind::Struct | ItemKind::Enum => {
                match derives_nativeclass(&item.attrs) {
                    Err(message) => {
                        errors.push(message);
                    },
                    Ok(true) => {
                        classes.insert(item.name.as_str());
                    },
                    Ok(false) => {},
                }
            },
            ItemKind::Other => {},
        }
        visit_items(&item.items, classes, errors);
        assert(classes@ =~= old(classes)@.union(discovered(upto)));
        i = i + 1;
    }
    assert(items@.subrange(0, n as int) =~= items@);
}

/// Finds the types of one source file that derive `NativeClass`, at any
/// depth of nesting. Where a type has a malformed derive list, the result
/// is instead one error message for each such type.
pub fn find_classes(items: &Vec<Item>) -> (r: Result<Classes, Vec<String>>)
    ensures
        r is Ok <==> malformed_count(items@) == 0,
        r matches Ok(classes) ==> classes.wf() && classes@ == discovered(items@),
        r matches Err(errors) ==> errors@.len() == malformed_count(items@) && derive_errors(
            errors@,
        ),
{
    let mut classes = Classes::new();
    let mut errors: Vec<String> = Vec::new();
    visit_items(items, &mut classes, &mut errors);
    if errors.len() == 0 {
        assert(classes@ =~= discovered(items@));
        Ok(classes)
    } else {
        Err(errors)
    }
}

/// What became of one candidate source file.
#[derive(Debug)]
pub enum SourceFile {
    /// The file could not be read; the message says why.
    Unreadable(String),
    /// The file's text is no source file; the message says why.
    Unparsable(String),
    /// The file was read and parsed: its items, in source order.
    Parsed(Vec<Item>),
}

/// Error type for errors that can occur during scanning.
#[derive(Debug)]
pub enum ScanError {
    /// An error was encountered when exploring all the files.
    WalkDir(String),
    /// An error was encountered when reading in a Rust source file.
    ReadFile(String),
    /// An error was encountered when parsing a Rust source file: a message
    /// for each thing that was wrong.
    Parse(Vec<String>),
}

/// What a `ScanError` says, as plain text.
pub enum ScanFailure {
    WalkDir(Seq<char>),
    ReadFile(Seq<char>),
    Parse(Seq<Seq<char>>),
}

/// The text of each string.
pub open spec fn texts(strings: Seq<String>) -> Seq<Seq<char>> {
    Seq::new(strings.len(), |i: int| strings[i]@)
}

impl View for ScanError {
    type V = ScanFailure;

    open spec fn view(&self) -> ScanFailure {
        match self {
            ScanError::WalkDir(message) => ScanFailure::WalkDir(message@),
            ScanError::ReadFile(message) => ScanFailure::ReadFile(message@),
            ScanError::Parse(messages) => ScanFailure::Parse(texts(messages@)),
        }
    }
}

impl ScanFailure {
    /// The line that tells a user of the failure: what kind it is, then
    /// its message, of several messages the first.
    pub open spec fn message(self) -> Seq<char> {
        match self {
            ScanFailure::WalkDir(message) => "Directory walking error: "@ + message,
            ScanFailure::ReadFile(message) => "File reading error: "@ + message,
            ScanFailure::Parse(messages) => if messages.len() > 0 {
                "Parsing error: "@ + messages[0]
            } else {
                "Parsing error: "@
            },
        }
    }
}

impl ScanError {
    /// The line that tells a user of the error.
    pub fn message(&self) -> (r: String)
        ensures
            r@ == self@.message(),
    {
        match self {
            ScanError::WalkDir(message) => {
                String::from_str("Directory walking error: ").concat(message.as_str())
            },
            ScanError::ReadFile(message) => {
                String::from_str("File reading error: ").concat(message.as_str())
            },
            ScanError::Parse(messages) => {
                let head = String::from_str("Parsing error: ");
                if messages.len() > 0 {
                    head.concat(messages[0].as_str())
                } else {
                    head
                }
            },
        }
    }
}

impl SourceFile {
    /// Whether the file stops the scan: it could not be read or parsed.
    pub open spec fn is_fatal(self) -> bool {
        !(self is Parsed)
    }

    /// The failure with which a fatal file stops the scan.
    pub open spec fn failure(self) -> ScanFailure {
        match self {
            SourceFile::Unreadable(message) => ScanFailure::ReadFile(message@),
            SourceFile::Unparsable(message) => ScanFailure::Parse(seq![message@]),
            SourceFile::Parsed(_) => ScanFailure::Parse(Seq::empty()),
        }
    }

    /// The names of the types in the file that derive `NativeClass`.
    pub open spec fn names(self) -> Set<Seq<char>> {
        match self {
            SourceFile::Parsed(items) => discovered(items@),
            _ => Set::empty(),
        }
    }

    /// How many types in the file have a malformed derive list.
    pub open spec fn malformed(self) -> nat {
        match self {
            SourceFile::Parsed(items) => malformed_count(items@),
            _ => 0,
        }
    }
}

/// Whether one of the files stops the scan.
pub open spec fn has_fatal(files: Seq<SourceFile>) -> bool {
    exists|i: int| 0 <= i < files.len() && (#[trigger] files[i]).is_fatal()
}

/// Whether `files[i]` is the first file that stops the scan.
pub open spec fn first_fatal(files: Seq<SourceFile>, i: int) -> bool {
    &&& 0 <= i < files.len()
    &&& files[i].is_fatal()
    &&& forall|j: int| 0 <= j < i ==> !(#[trigger] files[j]).is_fatal()
}

/// The names of the types in any of the files that derive `NativeClass`.
pub open spec fn discovered_in_files(files: Seq<SourceFile>) -> Set<Seq<char>> {
    Set::new(
        |name: Seq<char>|
            exists|i: int| 0 <= i < files.len() && (#[trigger] files[i]).names().contains(name),
    )
}

/// How many types in all the files have a malformed derive list.
pub open spec fn total_malformed(files: Seq<SourceFile>) -> nat
    decreases files.len(),
{
    if files.len() == 0 {
        0
    } else {
        total_malformed(files.drop_last()) + files.last().malformed()
    }
}

/// The error that stands for `count` malformed derive lists.
pub open spec fn derive_failure(count: nat) -> ScanFailure {
    ScanFailure::Parse(Seq::new(count, |i: int| derive_error_text()))
}

/// What a scan of `files` gives: the failure of the first file that could
/// not be read or parsed; else one error for all malformed derive lists
/// together; else the classes of all files.
pub open spec fn scan_gives(files: Seq<SourceFile>, r: Result<Classes, ScanError>) -> bool {
    match r {
        Ok(classes) => {
            &&& !has_fatal(files)
            &&& total_malformed(files) == 0
            &&& classes.wf()
            &&& classes@ == discovered_in_files(files)
        },
        Err(error) => {
            ||| exists|i: int| first_fatal(files, i) && error@ == files[i].failure()
            ||| {
                &&& !has_fatal(files)
                &&& total_malformed(files) > 0
                &&& error@ == derive_failure(total_malformed(files))
            }
        },
    }
}

/// Scans the files of a crate for types that derive `NativeClass`.
///
/// A file that could not be read or parsed ends the scan with its error.
/// Malformed derive lists do not: every file is still scanned, and their
/// errors come back together in place of the classes.
pub fn scan_files(files: &Vec<SourceFile>) -> (r: Result<Classes, ScanError>)
    ensures
        scan_gives(files@, r),
{
    let mut classes = Classes::new();
    let mut errors: Vec<String> = Vec::new();
    let n: usize = files.len();
    let mut i: usize = 0;
    assert(classes@ =~= discovered_in_files(files@.subrange(0, 0)));
    while i < n
        invariant
            i <= n,
            n == files@.len(),
            classes.wf(),
            forall|j: int| 0 <= j < i ==> !(#[trigger] files@[j]).is_fatal(),
            errors@.len() == 0 ==> classes@ == discovered_in_files(files@.subrange(0, i as int)),
            derive_errors(errors@),
            errors@.len() == total_malformed(files@.subrange(0, i as int)),
        decreases n - i,
    {
        let ghost upto = files@.subrange(0, i + 1);
        assert(upto.drop_last() =~= files@.subrange(0, i as int));
        assert(upto.last() == files@[i as int]);
        match &files[i] {
            SourceFile::Unreadable(message) => {
                assert(first_fatal(files@, i as int));
                return Err(ScanError::ReadFile(message.clone()));
            },
            SourceFile::Unparsable(message) => {
                assert(first_fatal(files@, i as int));
                let mut messages: Vec<String> = Vec::new();
                messages.push(message.clone());
                let error = ScanError::Parse(messages);
                assert(texts(messages@) =~= seq![message@]);
                return Err(error);
            },
            SourceFile::Parsed(items) => {
                match find_classes(items) {
                    Ok(found) => {
                        classes.extend(&found);
                    },
                    Err(mut found) => {
                        errors.append(&mut found);
                    },
                }
            },
        }
        assert(errors@.len() == 0 ==> classes@ =~= discovered_in_files(upto)) by {
            let prefix = files@.subrange(0, i as int);
            assert forall|name: Seq<char>|
                discovered_in_files(upto).contains(name) implies discovered_in_files(
                prefix,
            ).contains(name) || files@[i as int].names().contains(name) by {
                let k = choose|k: int|
                    0 <= k < upto.len() && (#[trigger] upto[k]).names().contains(name);
                if k < i {
                    assert(prefix[k].names().contains(name));
                }
            }
            assert forall|name: Seq<char>|
                discovered_in_files(prefix).contains(name) implies discovered_in_files(
                upto,
            ).contains(name) by {
                let k = choose|k: int|
                    0 <= k < prefix.len() && (#[trigger] prefix[k]).names().contains(name);
                assert(upto[k].names().contains(name));
            }
            assert forall|name: Seq<char>|
                files@[i as int].names().contains(name) implies discovered_in_files(
                upto,
            ).contains(name) by {
                assert(upto[i as int].names().contains(name));
            }
        }
        i = i + 1;
    }
    assert(files@.subrange(0, n as int) =~= files@);
    if errors.len() == 0 {
        Ok(classes)
    } else {
        let error = ScanError::Parse(errors);
        assert(error@ =~= derive_failure(total_malformed(files@))) by {
            assert(texts(errors@) =~= Seq::new(
                total_malformed(files@),
                |i: int| derive_error_text(),
            ));
        }
        Err(error)
    }
}

/// Scans a crate for types that derive `NativeClass`, from what a walk of
/// its directory gave: the candidate files, or the message of the error
/// that ended the walk.
pub fn scan_crate(walk: Result<Vec<SourceFile>, String>) -> (r: Result<Classes, ScanError>)
    ensures
        match walk {
            Ok(files) => scan_gives(files@, r),
            Err(message) => r is Err && r->Err_0@ == ScanFailure::WalkDir(message@),
        },
{
    match walk {
        Ok(files) => scan_files(&files),
        Err(message) => Err(ScanError::WalkDir(message)),
    }
}

/// Whether `name` belongs to `items[i]`: the item is a type that registers
/// under it, or it is discovered among the items nested in that item.
pub open spec fn discovered_at(items: Seq<Item>, i: int, name: Seq<char>) -> bool {
    ||| items[i].registers() && items[i].name@ == name
    ||| discovered(items[i].items@).contains(name)
}

/// A name is discovered exactly if one of the items is a struct or an enum
/// that derives `NativeClass` under that name, or the name is discovered
/// among the items nested in one of them. So nesting hides no type, and
/// nothing else is discovered.
pub proof fn lemma_discovered_at_any_depth(items: Seq<Item>, name: Seq<char>)
    ensures
        discovered(items).contains(name) <==> exists|i: int|
            0 <= i < items.len() && #[trigger] discovered_at(items, i, name),
    decreases items.len(),
{
    if items.len() > 0 {
        let last = items.len() - 1;
        let prefix = items.subrange(0, last);
        lemma_discovered_at_any_depth(prefix, name);
        if discovered(items).contains(name) {
            if discovered(prefix).contains(name) {
                let k = choose|k: int| 0 <= k < prefix.len() && #[trigger] discovered_at(
                    prefix,
                    k,
                    name,
                );
                assert(prefix[k] == items[k]);
                assert(discovered_at(items, k, name));
            } else {
                assert(discovered_at(items, last, name));
            }
        }
        if exists|i: int| 0 <= i < items.len() && #[trigger] discovered_at(items, i, name) {
            let k = choose|k: int| 0 <= k < items.len() && #[trigger] discovered_at(
                items,
                k,
                name,
            );
            if k < last {
                assert(prefix[k] == items[k]);
                assert(discovered_at(prefix, k, name));
            }
        }
    }
}

/// Taking one file out lowers the count of malformed derive lists by that
/// file's own.
pub proof fn lemma_total_malformed_remove(files: Seq<SourceFile>, k: int)
    requires
        0 <= k < files.len(),
    ensures
        total_malformed(files) == total_malformed(files.remove(k)) + files[k].malformed(),
    decreases files.len(),
{
    if k == files.len() - 1 {
        assert(files.remove(k) =~= files.drop_last());
    } else {
        lemma_total_malformed_remove(files.drop_last(), k);
        assert(files.remove(k).drop_last() =~= files.drop_last().remove(k));
        assert(files.remove(k).last() == files.last());
    }
}

/// The count of malformed derive lists does not depend on the order of the
/// files.
pub proof fn lemma_total_malformed_unordered(a: Seq<SourceFile>, b: Seq<SourceFile>)
    requires
        a.to_multiset() == b.to_multiset(),
    ensures
        total_malformed(a) == total_malformed(b),
    decreases a.len(),
{
    a.to_multiset_ensures();
    b.to_multiset_ensures();
    if a.len() > 0 {
        let x = a.last();
        assert(a[a.len() - 1] == x);
        assert(a.to_multiset().count(x) > 0);
        assert(b.to_multiset().count(x) > 0);
        let k = choose|k: int| 0 <= k < b.len() && b[k] == x;
        assert(a.remove(a.len() - 1) =~= a.drop_last());
        assert(a.drop_last().to_multiset() =~= b.remove(k).to_multiset());
        lemma_total_malformed_unordered(a.drop_last(), b.remove(k));
        lemma_total_malformed_remove(b, k);
    }
}

/// Scanning does not depend on the order of the files. Two sequences that
/// hold the same files agree on whether a file stops the scan, on the
/// classes that are discovered, and on how many malformed derive lists
/// there are. So they succeed together, with the same classes, and fail
/// together, with the same error for the malformed derive lists. Only
/// where several files stop the scan does the order choose the one whose
/// error comes back.
pub proof fn lemma_scan_order_independent(a: Seq<SourceFile>, b: Seq<SourceFile>)
    requires
        a.to_multiset() == b.to_multiset(),
    ensures
        has_fatal(a) == has_fatal(b),
        discovered_in_files(a) == discovered_in_files(b),
        total_malformed(a) == total_malformed(b),
        forall|ra: Result<Classes, ScanError>, rb: Result<Classes, ScanError>|
            scan_gives(a, ra) && scan_gives(b, rb) ==> {
                &&& ra is Ok <==> rb is Ok
                &&& ra is Ok ==> ra->Ok_0@ == rb->Ok_0@
                &&& ra is Err && !has_fatal(a) ==> ra->Err_0@ == rb->Err_0@
            },
{
    a.to_multiset_ensures();
    b.to_multiset_ensures();
    lemma_total_malformed_unordered(a, b);
    assert forall|x: SourceFile| a.contains(x) == b.contains(x) by {
        assert(a.contains(x) <==> a.to_multiset().count(x) > 0);
        assert(b.contains(x) <==> b.to_multiset().count(x) > 0);
    }
    if has_fatal(a) {
        let i = choose|i: int| 0 <= i < a.len() && (#[trigger] a[i]).is_fatal();
        assert(a.contains(a[i]));
        let j = choose|j: int| 0 <= j < b.len() && b[j] == a[i];
        assert(b[j].is_fatal());
    }
    if has_fatal(b) {
        let i = choose|i: int| 0 <= i < b.len() && (#[trigger] b[i]).is_fatal();
        assert(b.contains(b[i]));
        let j = choose|j: int| 0 <= j < a.len() && a[j] == b[i];
        assert(a[j].is_fatal());
    }
    assert forall|name: Seq<char>|
        discovered_in_files(a).contains(name) == discovered_in_files(b).contains(name) by {
        if discovered_in_files(a).contains(name) {
            let i = choose|i: int| 0 <= i < a.len() && (#[trigger] a[i]).names().contains(name);
            assert(a.contains(a[i]));
            let j = choose|j: int| 0 <= j < b.len() && b[j] == a[i];
            assert(b[j].names().contains(name));
        }
        if discovered_in_files(b).contains(name) {
            let i = choose|i: int| 0 <= i < b.len() && (#[trigger] b[i]).names().contains(name);
            assert(b.contains(b[i]));
            let j = choose|j: int| 0 <= j < a.len() && a[j] == b[i];
            assert(a[j].names().contains(name));
        }
    }
    assert(discovered_in_files(a) =~= discovered_in_files(b));
}

} // verus!
