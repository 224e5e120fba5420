//! The bounded undo/redo history for the command text in the configuration
//! window. Edits push the previous text onto the undo stack (oldest entries
//! fall off past the bound) and clear the redo stack; undo and redo move the
//! current text between the two stacks. Programmatic rewrites of the text
//! widget set the ignore flag so they are not recorded as edits.
use vstd::prelude::*;

verus! {

/// Largest number of undo entries kept.
pub const MAX_UNDO: usize = 200;

/// The editing history of the command text.
pub struct CommandEditor {
    undo: Vec<String>,
    redo: Vec<String>,
    last: String,
    ignore: bool,
}

impl CommandEditor {
    /// The undo stack, oldest first.
    pub closed spec fn undo_view(&self) -> Seq<Seq<char>> {
        self.undo.deep_view()
    }

    /// The redo stack, oldest first.
    pub closed spec fn redo_view(&self) -> Seq<Seq<char>> {
        self.redo.deep_view()
    }

    /// The text the widget currently shows, as last recorded.
    pub closed spec fn last_view(&self) -> Seq<char> {
        self.last@
    }

    /// Whether changes are currently ignored (a programmatic rewrite).
    pub closed spec fn ignoring(&self) -> bool {
        self.ignore
    }

    /// The bound every operation preserves.
    pub open spec fn wf(&self) -> bool {
        self.undo_view().len() <= MAX_UNDO
    }

    /// A history for a freshly opened window showing this text.
    pub fn new(text: String) -> (r: CommandEditor)
        ensures
            r.undo_view() == Seq::<Seq<char>>::empty(),
            r.redo_view() == Seq::<Seq<char>>::empty(),
            r.last_view() == text@,
            !r.ignoring(),
            r.wf(),
    {
        let r = CommandEditor { undo: Vec::new(), redo: Vec::new(), last: text, ignore: false };
        proof {
            assert(r.undo_view() =~= Seq::<Seq<char>>::empty());
            assert(r.redo_view() =~= Seq::<Seq<char>>::empty());
        }
        r
    }

    /// Starts or stops ignoring changes, around a programmatic rewrite.
    pub fn set_ignore(&mut self, on: bool)
        ensures
            final(self).ignoring() == on,
            final(self).undo_view() == old(self).undo_view(),
            final(self).redo_view() == old(self).redo_view(),
            final(self).last_view() == old(self).last_view(),
    {
        self.ignore = on;
    }

    /// The window was reopened showing this text: the history starts over.
    pub fn reset(&mut self, text: String)
        ensures
            final(self).undo_view() == Seq::<Seq<char>>::empty(),
            final(self).redo_view() == Seq::<Seq<char>>::empty(),
            final(self).last_view() == text@,
            final(self).ignoring() == old(self).ignoring(),
            final(self).wf(),
    {
        self.undo.clear();
        self.redo.clear();
        self.last = text;
        proof {
            assert(self.undo_view() =~= Seq::<Seq<char>>::empty());
            assert(self.redo_view() =~= Seq::<Seq<char>>::empty());
        }
    }

    /// Records one observed change of the text. Ignored rewrites and
    /// no-change notifications leave the history alone; a real edit pushes
    /// the previous text (dropping the oldest entry past the bound) and
    /// clears the redo stack.
    pub fn record(&mut self, text: String)
        requires
            old(self).wf(),
        ensures
            final(self).wf(),
            final(self).ignoring() == old(self).ignoring(),
            (old(self).ignoring() || text@ == old(self).last_view()) ==> {
                &&& final(self).undo_view() == old(self).undo_view()
                &&& final(self).redo_view() == old(self).redo_view()
                &&& final(self).last_view() == old(self).last_view()
            },
            !(old(self).ignoring() || text@ == old(self).last_view()) ==> {
                &&& final(self).undo_view() == (if old(self).undo_view().len() == MAX_UNDO {
                    old(self).undo_view().drop_first()
                } else {
                    old(self).undo_view()
                }).push(old(self).last_view())
                &&& final(self).redo_view() == Seq::<Seq<char>>::empty()
                &&& final(self).last_view() == text@
            },
    {
        if self.ignore || crate::text::str_eq(text.as_str(), self.last.as_str()) {
            return;
        }
        let ghost before = self.undo.deep_view();
        let previous = self.last.clone();
        self.last = text;
        self.undo.push(previous);
        proof {
            assert(self.undo.deep_view() =~= before.push(old(self).last_view()));
        }
        if self.undo.len() > MAX_UNDO {
            self.undo.remove(0);
            proof {
                assert(self.undo.deep_view() =~= before.push(old(self).last_view()).drop_first());
                assert(before.push(old(self).last_view()).drop_first() =~= before.drop_first().push(
                    old(self).last_view(),
                ));
            }
        }
        self.redo.clear();
        proof {
            assert(self.redo_view() =~= Seq::<Seq<char>>::empty());
        }
    }

    /// Undoes one edit: the current text moves to the redo stack and the
    /// most recent undo entry becomes current; it is returned so the widget
    /// can be rewritten. With nothing to undo, nothing changes.
    pub fn undo_step(&mut self) -> (r: Option<String>)
        requires
            old(self).wf(),
        ensures
            final(self).wf(),
            final(self).ignoring() == old(self).ignoring(),
            old(self).undo_view().len() == 0 ==> {
                &&& r is None
                &&& final(self).undo_view() == old(self).undo_view()
                &&& final(self).redo_view() == old(self).redo_view()
                &&& final(self).last_view() == old(self).last_view()
            },
            old(self).undo_view().len() > 0 ==> {
                &&& (r matches Some(text) && text@ == old(self).undo_view().last())
                &&& final(self).undo_view() == old(self).undo_view().drop_last()
                &&& final(self).redo_view() == old(self).redo_view().push(old(self).last_view())
                &&& final(self).last_view() == old(self).undo_view().last()
            },
    {
        let ghost undo_before = self.undo.deep_view();
        let ghost redo_before = self.redo.deep_view();
        match self.undo.pop() {
            None => None,
            Some(value) => {
                proof {
                    assert(self.undo.deep_view() =~= undo_before.drop_last());
                }
                let shown = value.clone();
                let previous = self.last.clone();
                self.last = value;
                self.redo.push(previous);
                proof {
                    assert(self.redo.deep_view() =~= redo_before.push(old(self).last_view()));
                }
                Some(shown)
            },
        }
    }

    /// Redoes one undone edit, symmetrically to `undo_step`.
    pub fn redo_step(&mut self) -> (r: Option<String>)
        requires
            old(self).wf(),
        ensures
            final(self).wf(),
            final(self).ignoring() == old(self).ignoring(),
            old(self).redo_view().len() == 0 ==> {
                &&& r is None
                &&& final(self).undo_view() == old(self).undo_view()
                &&& final(self).redo_view() == old(self).redo_view()
                &&& final(self).last_view() == old(self).last_view()
            },
            old(self).redo_view().len() > 0 ==> {
                &&& (r matches Some(text) && text@ == old(self).redo_view().last())
                &&& final(self).redo_view() == old(self).redo_view().drop_last()
                &&& final(self).undo_view() == (if old(self).undo_view().len() == MAX_UNDO {
                    old(self).undo_view().drop_first()
                } else {
                    old(self).undo_view()
                }).push(old(self).last_view())
                &&& final(self).last_view() == old(self).redo_view().last()
            },
    {
        let ghost undo_before = self.undo.deep_view();
        let ghost redo_before = self.redo.deep_view();
        match self.redo.pop() {
            None => None,
            Some(value) => {
                proof {
                    assert(self.redo.deep_view() =~= redo_before.drop_last());
                }
                let shown = value.clone();
                let previous = self.last.clone();
                self.last = value;
                if self.undo.len() == MAX_UNDO {
                    self.undo.remove(0);
                    proof {
                        assert(self.undo.deep_view() =~= undo_before.drop_first());
                    }
                }
                let ghost trimmed = self.undo.deep_view();
                self.undo.push(previous);
                proof {
                    assert(self.undo.deep_view() =~= trimmed.push(old(self).last_view()));
                }
                Some(shown)
            },
        }
    }

    /// The text last recorded as shown.
    pub fn current(&self) -> (r: &String)
        ensures
            r@ == self.last_view(),
    {
        &self.last
    }
}

} // verus!
