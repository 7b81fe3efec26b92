//! The diagnostics of a project, by the paths of its files.
use crate::lsp::Range;
use crate::table::Table;
use vstd::prelude::*;

verus! {

/// An error or a warning of the compiler, at a place in a file.
#[derive(Debug, PartialEq, Eq)]
pub struct Diagnostic {
    pub range: Range,
    pub message: String,
}

/// The diagnostics of each file.
#[derive(Debug)]
pub struct DiagnosticMap {
    pub files: Table<String, Vec<Diagnostic>>,
}

impl Clone for Diagnostic {
    fn clone(&self) -> (copy: Self)
        ensures
            copy == *self,
    {
        Diagnostic { range: self.range, message: self.message.clone() }
    }
}

impl View for DiagnosticMap {
    type V = Map<Seq<char>, Seq<Diagnostic>>;

    open spec fn view(&self) -> Map<Seq<char>, Seq<Diagnostic>> {
        self.files@.map_values(|diagnostics: Vec<Diagnostic>| diagnostics@)
    }
}

/// A copy of the diagnostics of one file.
fn copy_diagnostics(diagnostics: &Vec<Diagnostic>) -> (copy: Vec<Diagnostic>)
    ensures
        copy@ == diagnostics@,
{
    let mut copy: Vec<Diagnostic> = Vec::new();
    for i in 0..diagnostics.len()
        invariant
            copy@ == diagnostics@.take(i as int),
    {
        copy.push(diagnostics[i].clone());
        assert(copy@ =~= diagnostics@.take(i + 1));
    }
    assert(diagnostics@.take(diagnostics@.len() as int) =~= diagnostics@);
    copy
}

impl DiagnosticMap {
    /// No file is known under two entries.
    pub open spec fn wf(&self) -> bool {
        self.files.wf()
    }

    /// No diagnostics for any file.
    pub fn new() -> (map: Self)
        ensures
            map.wf(),
            map@ == Map::<Seq<char>, Seq<Diagnostic>>::empty(),
    {
        let map = DiagnosticMap { files: Table::new() };
        assert(map@ =~= Map::<Seq<char>, Seq<Diagnostic>>::empty());
        map
    }

    /// A copy of the map.
    pub fn copy(&self) -> (copy: Self)
        requires
            self.wf(),
        ensures
            copy.wf(),
            copy@ == self@,
    {
        let entries = self.files.entries();
        let mut files: Table<String, Vec<Diagnostic>> = Table::new();
        for i in 0..entries.len()
            invariant
                files.wf(),
                forall|key: Seq<char>| #[trigger]
                    files@.contains_key(key) ==> self.files@.contains_key(key) && files@[key]@
                        == self.files@[key]@,
                forall|j: int|
                    0 <= j < i ==> files@.contains_key((#[trigger] entries@[j]).0@),
                forall|j: int|
                    0 <= j < entries@.len() ==> self.files@.contains_key(
                        (#[trigger] entries@[j]).0@,
                    ) && self.files@[entries@[j].0@] == entries@[j].1,
        {
            let entry = &entries[i];
            assert(*entry == entries@[i as int]);
            files.insert(entry.0.clone(), copy_diagnostics(&entry.1));
        }
        let copy = DiagnosticMap { files };
        assert(copy@ =~= self@);
        copy
    }
}

} // verus!
