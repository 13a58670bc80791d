//! The file picker: a fuzzy list over one directory's entries. Hidden
//! entries are dropped, directories are listed before files, and either
//! group is ordered case-insensitively by name; a parent entry `..`
//! comes first when the directory has a parent. Committing a directory
//! navigates into it; committing a file opens it.

use vstd::multiset::Multiset;
use vstd::prelude::*;
use vstd::relations::sorted_by;
use vstd::seq_lib::to_multiset_build;
use vstd::string::StringExecFns;

use crate::action::Action;
use crate::entries::FileEntry;
use crate::fuzzy::lemma_lex_total;
use crate::fuzzy::lemma_lex_trans;
use crate::fuzzy::lex_leq;
use crate::fuzzy::str_lex_leq;
use crate::list::FuzzyList;

verus! {

broadcast use vstd::multiset::group_multiset_axioms, vstd::seq_lib::group_to_multiset_ensures;

/// An entry the listing keeps: everything but hidden names, those
/// starting with a dot.
pub open spec fn visible(e: FileEntry) -> bool {
    e.name@.len() == 0 || e.name@[0] != '.'
}

/// The visible entries of `s`, in order.
pub open spec fn visible_entries(s: Seq<FileEntry>) -> Seq<FileEntry>
    decreases s.len(),
{
    if s.len() == 0 {
        Seq::<FileEntry>::empty()
    } else if visible(s.last()) {
        visible_entries(s.drop_last()).push(s.last())
    } else {
        visible_entries(s.drop_last())
    }
}

/// Directories sort before files.
pub open spec fn file_rank(e: FileEntry) -> int {
    if e.is_dir {
        0
    } else {
        1
    }
}

/// The listing order: directories first, then files, either group
/// ordered case-insensitively by name.
pub open spec fn file_le(a: FileEntry, b: FileEntry) -> bool {
    file_rank(a) < file_rank(b) || (file_rank(a) == file_rank(b) && lex_leq(a.name@, b.name@))
}

/// `file_le`, as a value the sequence operations take.
pub open spec fn file_le_fn() -> spec_fn(FileEntry, FileEntry) -> bool {
    |a: FileEntry, b: FileEntry| file_le(a, b)
}

/// The listing order is total.
proof fn lemma_file_le_total(a: FileEntry, b: FileEntry)
    ensures
        file_le(a, b) || file_le(b, a),
{
    lemma_lex_total(a.name@, b.name@);
}

/// The listing order is transitive.
proof fn lemma_file_le_trans(a: FileEntry, b: FileEntry, c: FileEntry)
    requires
        file_le(a, b),
        file_le(b, c),
    ensures
        file_le(a, c),
{
    if file_rank(a) == file_rank(b) && file_rank(b) == file_rank(c) {
        lemma_lex_trans(a.name@, b.name@, c.name@);
    }
}

/// Compare two entries in the listing order.
fn file_le_exec(a: &FileEntry, b: &FileEntry) -> (r: bool)
    ensures
        r == file_le(*a, *b),
{
    let ra: u8 = if a.is_dir {
        0
    } else {
        1
    };
    let rb: u8 = if b.is_dir {
        0
    } else {
        1
    };
    if ra < rb {
        true
    } else if ra > rb {
        false
    } else {
        str_lex_leq(a.name.as_str(), b.name.as_str())
    }
}

/// The position where `x` belongs in the sorted `v`: past every entry
/// that precedes it in the listing order.
fn insert_pos(v: &Vec<FileEntry>, x: &FileEntry) -> (j: usize)
    ensures
        j <= v@.len(),
        forall|k: int| 0 <= k < j ==> file_le(v@[k], *x),
        (j as int) < v@.len() ==> !file_le(v@[j as int], *x),
{
    let mut j: usize = 0;
    while j < v.len()
        invariant
            j <= v@.len(),
            forall|k: int| 0 <= k < j ==> file_le(v@[k], *x),
        decreases v@.len() - j,
    {
        if !file_le_exec(&v[j], x) {
            return j;
        }
        j = j + 1;
    }
    j
}

/// Insert `x` into the sorted `v`, keeping it sorted.
fn sorted_insert(v: &mut Vec<FileEntry>, x: FileEntry)
    requires
        sorted_by(old(v)@, file_le_fn()),
    ensures
        sorted_by(final(v)@, file_le_fn()),
        final(v)@.to_multiset() == old(v)@.to_multiset().insert(x),
{
    let j = insert_pos(v, &x);
    let ghost pre = v@;
    v.insert(j, x);
    proof {
        vstd::seq_lib::to_multiset_insert(pre, j as int, x);
        if (j as int) < pre.len() {
            lemma_file_le_total(pre[j as int], x);
        }
        let post = v@;
        assert forall|i1: int, i2: int| 0 <= i1 < i2 < post.len() implies file_le_fn()(
            post[i1],
            post[i2],
        ) by {
            if i1 == j {
                // x against a former suffix entry
                assert(file_le(x, pre[j as int]));
                if i2 - 1 > j {
                    assert(file_le_fn()(pre[j as int], pre[i2 - 1]));
                    lemma_file_le_trans(x, pre[j as int], pre[i2 - 1]);
                }
            } else if i2 == j {
                // a former prefix entry against x
                assert(file_le(pre[i1], x));
            } else if i1 < j && i2 > j {
                // two former entries across the insertion point
                assert(file_le_fn()(pre[i1], pre[i2 - 1]));
            } else if i1 > j {
                assert(file_le_fn()(pre[i1 - 1], pre[i2 - 1]));
            } else {
                assert(file_le_fn()(pre[i1], pre[i2]));
            }
        }
    }
}

/// Sort entries into the listing order. The result holds exactly the
/// given entries.
fn sort_entries(entries: Vec<FileEntry>) -> (r: Vec<FileEntry>)
    ensures
        sorted_by(r@, file_le_fn()),
        r@.to_multiset() == entries@.to_multiset(),
{
    let ghost all = entries@;
    let mut src = entries;
    let mut out: Vec<FileEntry> = Vec::new();
    proof {
        assert(out@.to_multiset().add(src@.to_multiset()) =~= all.to_multiset());
    }
    while src.len() > 0
        invariant
            sorted_by(out@, file_le_fn()),
            out@.to_multiset().add(src@.to_multiset()) == all.to_multiset(),
        decreases src@.len(),
    {
        let ghost src_pre = src@;
        let x = src.pop().unwrap();
        proof {
            assert(src_pre =~= src@.push(x));
            to_multiset_build(src@, x);
        }
        sorted_insert(&mut out, x);
        proof {
            assert(out@.to_multiset().add(src@.to_multiset()) =~= all.to_multiset());
        }
    }
    proof {
        assert(src@.to_multiset() =~= Multiset::<FileEntry>::empty());
        assert(out@.to_multiset() =~= all.to_multiset());
    }
    out
}

pub struct FilePicker {
    pub list: FuzzyList<FileEntry>,
    pub current_dir: String,
}

impl FilePicker {
    /// An empty picker rooted at the given directory.
    pub fn new(current_dir: String) -> (r: Self)
        ensures
            r.current_dir == current_dir,
            r.list.items@.len() == 0,
            r.list.query@.len() == 0,
            r.list.cursor == 0,
            r.list.wf(),
    {
        FilePicker { list: FuzzyList::new("Files"), current_dir }
    }

    /// The directory whose entries the picker lists.
    pub fn current_dir(&self) -> (r: &str)
        ensures
            r@ == self.current_dir@,
    {
        self.current_dir.as_str()
    }

    /// Replace the listing with a fresh read of the directory: `parent`
    /// is the parent directory's path, if the directory has one, and
    /// `raw` its entries in any order. Hidden entries are dropped, the
    /// rest sorted into the listing order behind the `..` entry.
    pub fn refresh(&mut self, parent: Option<String>, raw: Vec<FileEntry>)
        ensures
            final(self).current_dir == old(self).current_dir,
            final(self).list.query == old(self).list.query,
            final(self).list.cursor == 0,
            final(self).list.wf(),
            (match parent {
                Some(p) => final(self).list.items@.len() >= 1 && final(self).list.items@[0].path
                    == p && final(self).list.items@[0].is_dir && final(self).list.items@[0].name@
                    == ".."@ && final(self).list.items@.skip(1).to_multiset() == visible_entries(
                    raw@,
                ).to_multiset() && sorted_by(final(self).list.items@.skip(1), file_le_fn()),
                None => final(self).list.items@.to_multiset() == visible_entries(
                    raw@,
                ).to_multiset() && sorted_by(final(self).list.items@, file_le_fn()),
            }),
    {
        let ghost all = raw@;
        let mut src = raw;
        let mut kept: Vec<FileEntry> = Vec::new();
        proof {
            assert(kept@.to_multiset().add(visible_entries(src@).to_multiset())
                =~= visible_entries(all).to_multiset());
        }
        while src.len() > 0
            invariant
                kept@.to_multiset().add(visible_entries(src@).to_multiset()) == visible_entries(
                    all,
                ).to_multiset(),
            decreases src@.len(),
        {
            let ghost src_pre = src@;
            let x = src.pop().unwrap();
            proof {
                assert(src@ == src_pre.drop_last());
                assert(x == src_pre.last());
                if visible(x) {
                    to_multiset_build(visible_entries(src@), x);
                }
            }
            let is_hidden = {
                let name = x.name.as_str();
                if name.unicode_len() > 0 {
                    name.get_char(0) == '.'
                } else {
                    false
                }
            };
            if !is_hidden {
                let ghost kept_pre = kept@;
                kept.push(x);
                proof {
                    to_multiset_build(kept_pre, x);
                    assert(kept@.to_multiset().add(visible_entries(src@).to_multiset())
                        =~= visible_entries(all).to_multiset());
                }
            }
        }
        proof {
            assert(kept@.to_multiset() =~= visible_entries(all).to_multiset());
        }
        let mut sorted = sort_entries(kept);
        match parent {
            Some(p) => {
                let mut items: Vec<FileEntry> = Vec::new();
                items.push(FileEntry { path: p, is_dir: true, name: String::from_str("..") });
                let ghost head = items@;
                let ghost tail = sorted@;
                items.append(&mut sorted);
                proof {
                    assert(items@.skip(1) =~= tail);
                }
                self.list.set_items(items);
            },
            None => {
                self.list.set_items(sorted);
            },
        }
    }

    /// Point the picker at another directory: the query is cleared and
    /// the stale listing stays until the next refresh.
    pub fn navigate_to(&mut self, path: String)
        ensures
            final(self).current_dir == path,
            FuzzyList::refiltered(old(self).list, final(self).list, Seq::<char>::empty()),
    {
        self.current_dir = path;
        self.list.clear_query();
    }

    /// Consume one action. Besides the optional follow-up, the second
    /// result says whether the picker navigated into a directory and now
    /// needs a fresh listing.
    pub fn handle_action(&mut self, action: &Action) -> (r: (Option<Action>, bool))
        requires
            old(self).list.wf(),
        ensures
            final(self).list.wf(),
            !(action is Enter) ==> final(self).current_dir == old(self).current_dir && !r.1,
            (match action {
                Action::MoveUp => FuzzyList::stepped_up(old(self).list, final(self).list) && (
                r.0 matches Some(Action::Render)),
                Action::MoveDown => FuzzyList::stepped_down(old(self).list, final(self).list) && (
                r.0 matches Some(Action::Render)),
                Action::PageUp => FuzzyList::paged_up(old(self).list, final(self).list, 10) && (
                r.0 matches Some(Action::Render)),
                Action::PageDown => FuzzyList::paged_down(old(self).list, final(self).list, 10) && (
                r.0 matches Some(Action::Render)),
                Action::Character(c) => FuzzyList::refiltered(
                    old(self).list,
                    final(self).list,
                    old(self).list.query@.push(*c),
                ) && (r.0 matches Some(Action::Render)),
                Action::Backspace => FuzzyList::refiltered(
                    old(self).list,
                    final(self).list,
                    if old(self).list.query@.len() == 0 {
                        old(self).list.query@
                    } else {
                        old(self).list.query@.drop_last()
                    },
                ) && (r.0 matches Some(Action::Render)),
                Action::Enter => (match old(self).list.spec_selected() {
                    Some(e) => (if e.is_dir {
                        final(self).current_dir@ == e.path@ && FuzzyList::refiltered(
                            old(self).list,
                            final(self).list,
                            Seq::<char>::empty(),
                        ) && (r.0 matches Some(Action::Render)) && r.1
                    } else {
                        final(self).list == old(self).list && final(self).current_dir == old(
                            self,
                        ).current_dir && (r.0 matches Some(Action::OpenFile(p)) && p@ == e.path@)
                            && !r.1
                    }),
                    None => final(self).list == old(self).list && final(self).current_dir == old(
                        self,
                    ).current_dir && r.0 is None && !r.1,
                }),
                Action::Escape => (if old(self).list.query@.len() > 0 {
                    FuzzyList::refiltered(old(self).list, final(self).list, Seq::<char>::empty())
                        && (r.0 matches Some(Action::Render))
                } else {
                    final(self).list == old(self).list && (r.0 matches Some(Action::GoBack))
                }),
                _ => final(self).list == old(self).list && r.0 is None,
            }),
    {
        match action {
            Action::MoveUp => {
                self.list.move_up();
                (Some(Action::Render), false)
            },
            Action::MoveDown => {
                self.list.move_down();
                (Some(Action::Render), false)
            },
            Action::PageUp => {
                self.list.page_up(10);
                (Some(Action::Render), false)
            },
            Action::PageDown => {
                self.list.page_down(10);
                (Some(Action::Render), false)
            },
            Action::Character(c) => {
                self.list.push_char(*c);
                (Some(Action::Render), false)
            },
            Action::Backspace => {
                self.list.pop_char();
                (Some(Action::Render), false)
            },
            Action::Enter => {
                let (is_dir, path) = match self.list.selected() {
                    Some(entry) => (entry.is_dir, Some(entry.path.clone())),
                    None => (false, Option::None),
                };
                match path {
                    Some(p) => {
                        if is_dir {
                            self.navigate_to(p);
                            (Some(Action::Render), true)
                        } else {
                            (Some(Action::OpenFile(p)), false)
                        }
                    },
                    None => (Option::None, false),
                }
            },
            Action::Escape => {
                if !self.list.query_is_empty() {
                    self.list.clear_query();
                    (Some(Action::Render), false)
                } else {
                    (Some(Action::GoBack), false)
                }
            },
            _ => (Option::None, false),
        }
    }

    /// The hint line for this view.
    pub fn help_text(&self) -> (r: &'static str)
        ensures
            r@ == "Enter:open/navigate  Esc:back"@,
    {
        "Enter:open/navigate  Esc:back"
    }
}

} // verus!
