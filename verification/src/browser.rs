use vstd::prelude::*;

use crate::paths::{parent_dir, parent_of};
use crate::sorting::{lemma_lex_total, lemma_lex_transitive, lex_le, lex_le_chars};
use crate::text::{chars_of, lowercase, pop_char, push_char, to_lowercase, trim_str, trimmed};

verus! {

/// One entry of a directory listing.
#[derive(Clone, Debug)]
pub struct DirEntryItem {
    pub name: String,
    pub path: String,
    pub is_dir: bool,
}

/// A listing entry with its strings as characters.
pub struct DirEntryView {
    pub name: Seq<char>,
    pub path: Seq<char>,
    pub is_dir: bool,
}

impl View for DirEntryItem {
    type V = DirEntryView;

    open spec fn view(&self) -> DirEntryView {
        DirEntryView { name: self.name@, path: self.path@, is_dir: self.is_dir }
    }
}

/// The views of a listing.
pub open spec fn entries_view(s: Seq<DirEntryItem>) -> Seq<DirEntryView> {
    s.map_values(|e: DirEntryItem| e@)
}

/// Listing order: directories first, then alphabetical by lowercased name.
/// `a` may be listed before `b`.
pub open spec fn listed_before(a: DirEntryItem, b: DirEntryItem) -> bool {
    ||| a.is_dir && !b.is_dir
    ||| a.is_dir == b.is_dir && lex_le(lowercase(a.name@), lowercase(b.name@))
}

/// A listing in listing order.
pub open spec fn is_sorted_listing(s: Seq<DirEntryItem>) -> bool {
    forall|i: int, j: int| 0 <= i < j < s.len() ==> listed_before(#[trigger] s[i], #[trigger] s[j])
}

/// Entries with the same place in listing order: the same kind and the
/// same lowercased name.
pub open spec fn same_key(a: DirEntryItem, b: DirEntryItem) -> bool {
    a.is_dir == b.is_dir && lowercase(a.name@) == lowercase(b.name@)
}

/// The entries of `s` with the same key as `e`, in their order in `s`.
pub open spec fn key_class(s: Seq<DirEntryItem>, e: DirEntryItem) -> Seq<DirEntryItem> {
    s.filter(|y: DirEntryItem| same_key(y, e))
}

/// `entries` holds the items of `listing`, in listing order; entries with
/// the same key keep their order.
pub open spec fn sorts(entries: Seq<DirEntryItem>, listing: Seq<DirEntryItem>) -> bool {
    &&& is_sorted_listing(entries)
    &&& entries.to_multiset() == listing.to_multiset()
    &&& forall|e: DirEntryItem| #[trigger] key_class(entries, e) == key_class(listing, e)
}

proof fn lemma_lex_reflexive(a: Seq<char>)
    ensures
        lex_le(a, a),
    decreases a.len(),
{
    if a.len() > 0 {
        lemma_lex_reflexive(a.drop_first());
    }
}

/// Filtering a sequence none of whose items pass gives nothing.
proof fn lemma_filter_none(s: Seq<DirEntryItem>, e: DirEntryItem)
    requires
        forall|j: int| 0 <= j < s.len() ==> !same_key(#[trigger] s[j], e),
    ensures
        key_class(s, e) == Seq::<DirEntryItem>::empty(),
    decreases s.len(),
{
    reveal(Seq::filter);
    if s.len() > 0 {
        assert forall|j: int| 0 <= j < s.drop_last().len() implies !same_key(
            #[trigger] s.drop_last()[j],
            e,
        ) by {
            assert(s.drop_last()[j] == s[j]);
        }
        lemma_filter_none(s.drop_last(), e);
        assert(!same_key(s[s.len() - 1], e));
    }
}

/// Inserting `x` into a sorted listing after every entry it may follow adds
/// it at the end of its key class and leaves the other classes alone.
proof fn lemma_insert_keeps_classes(s: Seq<DirEntryItem>, k: int, x: DirEntryItem, e: DirEntryItem)
    requires
        0 <= k <= s.len(),
        is_sorted_listing(s),
        k < s.len() ==> !listed_before(s[k], x),
    ensures
        key_class(s.insert(k, x), e) == if same_key(x, e) {
            key_class(s, e).push(x)
        } else {
            key_class(s, e)
        },
{
    let p = |y: DirEntryItem| same_key(y, e);
    let a = s.take(k);
    let b = s.skip(k);
    assert(s =~= a + b);
    assert(s.insert(k, x) =~= (a + seq![x]) + b);
    Seq::filter_distributes_over_add(a + seq![x], b, p);
    Seq::filter_distributes_over_add(a, seq![x], p);
    Seq::filter_distributes_over_add(a, b, p);
    reveal(Seq::filter);
    assert(seq![x].drop_last() =~= Seq::<DirEntryItem>::empty());
    assert(Seq::<DirEntryItem>::empty().filter(p) =~= Seq::<DirEntryItem>::empty());
    if same_key(x, e) {
        assert forall|j: int| 0 <= j < b.len() implies !same_key(#[trigger] b[j], e) by {
            assert(b[j] == s[k + j]);
            if same_key(b[j], e) {
                lemma_lex_reflexive(lowercase(x.name@));
                assert(listed_before(b[j], x));
                if j > 0 {
                    assert(listed_before(s[k], s[k + j]));
                    lemma_listed_transitive(s[k], s[k + j], x);
                }
            }
        }
        lemma_filter_none(b, e);
        assert(key_class(s.insert(k, x), e) =~= key_class(s, e).push(x));
    } else {
        assert(key_class(s.insert(k, x), e) =~= key_class(s, e));
    }
}

proof fn lemma_listed_total(a: DirEntryItem, b: DirEntryItem)
    ensures
        listed_before(a, b) || listed_before(b, a),
{
    lemma_lex_total(lowercase(a.name@), lowercase(b.name@));
}

proof fn lemma_listed_transitive(a: DirEntryItem, b: DirEntryItem, c: DirEntryItem)
    requires
        listed_before(a, b),
        listed_before(b, c),
    ensures
        listed_before(a, c),
{
    if a.is_dir == b.is_dir && b.is_dir == c.is_dir {
        lemma_lex_transitive(lowercase(a.name@), lowercase(b.name@), lowercase(c.name@));
    }
}

/// Whether an entry with key `a_key` and kind `a_dir` may be listed before
/// one with key `b_key` and kind `b_dir`.
fn comes_before(a_key: &Vec<char>, a_dir: bool, b_key: &Vec<char>, b_dir: bool) -> (r: bool)
    ensures
        r == ((a_dir && !b_dir) || (a_dir == b_dir && lex_le(a_key@, b_key@))),
{
    if a_dir != b_dir {
        a_dir
    } else {
        lex_le_chars(a_key, b_key)
    }
}

/// Puts a listing in listing order: directories first, then alphabetical
/// by lowercased name; entries that compare equal keep their order.
pub fn sort_listing(listing: Vec<DirEntryItem>) -> (r: Vec<DirEntryItem>)
    ensures
        sorts(r@, listing@),
{
    let ghost all = listing@;
    let mut rest = listing;
    let mut rev: Vec<DirEntryItem> = Vec::new();
    while rest.len() > 0
        invariant
            rest@.len() + rev@.len() == all.len(),
            forall|j: int| 0 <= j < rest@.len() ==> rest@[j] == all[j],
            forall|j: int| 0 <= j < rev@.len() ==> rev@[j] == all[all.len() - 1 - j],
        decreases rest.len(),
    {
        let x = rest.pop().unwrap();
        rev.push(x);
    }
    let mut out: Vec<DirEntryItem> = Vec::new();
    let mut keys: Vec<Vec<char>> = Vec::new();
    let ghost mut i: int = 0;
    assert(all.take(0).to_multiset() =~= out@.to_multiset()) by {
        assert(all.take(0) =~= out@);
    }
    assert forall|e: DirEntryItem| #[trigger] key_class(out@, e) == key_class(all.take(0), e) by {
        assert(all.take(0) =~= out@);
    }
    while rev.len() > 0
        invariant
            i + rev@.len() == all.len(),
            0 <= i <= all.len(),
            forall|j: int| 0 <= j < rev@.len() ==> rev@[j] == all[all.len() - 1 - j],
            keys@.len() == out@.len(),
            forall|k: int| 0 <= k < out@.len() ==> (#[trigger] keys@[k])@ == lowercase(out@[k].name@),
            is_sorted_listing(out@),
            out@.to_multiset() == all.take(i).to_multiset(),
            forall|e: DirEntryItem| #[trigger] key_class(out@, e) == key_class(all.take(i), e),
        decreases rev.len(),
    {
        let x = rev.pop().unwrap();
        assert(x == all[i]);
        let lower = to_lowercase(x.name.as_str());
        let key = chars_of(lower.as_str());
        let mut k: usize = 0;
        while k < out.len() && comes_before(&keys[k], out[k].is_dir, &key, x.is_dir)
            invariant
                k <= out@.len(),
                keys@.len() == out@.len(),
                forall|q: int| 0 <= q < out@.len() ==> (#[trigger] keys@[q])@ == lowercase(out@[q].name@),
                key@ == lowercase(x.name@),
                forall|j: int| 0 <= j < k ==> listed_before(#[trigger] out@[j], x),
            decreases out@.len() - k,
        {
            k = k + 1;
        }
        let ghost old_out = out@;
        let ghost old_keys = keys@;
        proof {
            if k < old_out.len() {
                assert(!listed_before(old_out[k as int], x));
                lemma_listed_total(old_out[k as int], x);
            }
            assert forall|a: int, b: int| 0 <= a < b < old_out.len() + 1 implies listed_before(
                #[trigger] old_out.insert(k as int, x)[a],
                #[trigger] old_out.insert(k as int, x)[b],
            ) by {
                let s = old_out.insert(k as int, x);
                if a < k && b == k {
                } else if a < k && b > k {
                    assert(s[b] == old_out[b - 1]);
                    assert(listed_before(old_out[a], old_out[b - 1]));
                } else if a == k {
                    assert(s[b] == old_out[b - 1]);
                    if b - 1 > k {
                        assert(listed_before(old_out[k as int], old_out[b - 1]));
                        lemma_listed_transitive(x, old_out[k as int], old_out[b - 1]);
                    }
                } else if a > k {
                    assert(s[a] == old_out[a - 1]);
                    assert(s[b] == old_out[b - 1]);
                    assert(listed_before(old_out[a - 1], old_out[b - 1]));
                } else {
                    assert(s[a] == old_out[a]);
                    assert(s[b] == old_out[b]);
                }
            }
            assert(all.take(i + 1) =~= all.take(i).push(x));
        }
        out.insert(k, x);
        keys.insert(k, key);
        proof {
            assert forall|q: int| 0 <= q < out@.len() implies (#[trigger] keys@[q])@ == lowercase(
                out@[q].name@,
            ) by {
                if q > k {
                    assert(keys@[q] == old_keys[q - 1]);
                }
            }
            assert(out@ == old_out.insert(k as int, x));
            vstd::seq_lib::to_multiset_insert(old_out, k as int, x);
            vstd::seq_lib::to_multiset_build(all.take(i), x);
            assert forall|e: DirEntryItem| #[trigger] key_class(out@, e) == key_class(all.take(i + 1), e) by {
                lemma_insert_keeps_classes(old_out, k as int, x, e);
                all.take(i).lemma_filter_push(x, |y: DirEntryItem| same_key(y, e));
            }
            i = i + 1;
        }
    }
    assert(all.take(all.len() as int) =~= all);
    out
}

} // verus!

verus! {

/// The text typed into the browser's `/` popup.
#[derive(Debug)]
pub struct PathPopup {
    pub input: String,
}

impl Default for PathPopup {
    /// An empty popup.
    fn default() -> (r: PathPopup)
        ensures
            r.input@ == Seq::<char>::empty(),
    {
        PathPopup { input: String::new() }
    }
}

/// The directory browser: the directory shown, its entries in listing
/// order, the highlighted entry and the `/` popup when it is open.
pub struct BrowserState {
    pub current_dir: String,
    pub entries: Vec<DirEntryItem>,
    pub selected: usize,
    pub popup: Option<PathPopup>,
}

/// The browser with its strings as characters.
pub struct BrowserView {
    pub current_dir: Seq<char>,
    pub entries: Seq<DirEntryView>,
    pub selected: usize,
    pub popup: Option<Seq<char>>,
}

impl View for BrowserState {
    type V = BrowserView;

    open spec fn view(&self) -> BrowserView {
        BrowserView {
            current_dir: self.current_dir@,
            entries: entries_view(self.entries@),
            selected: self.selected,
            popup: match self.popup {
                Some(p) => Some(p.input@),
                None => None,
            },
        }
    }
}

/// The highlight one entry down, stopping at the last entry.
pub open spec fn moved_down(b: BrowserView) -> BrowserView {
    if b.entries.len() == 0 {
        b
    } else {
        BrowserView {
            selected: (if b.selected + 1 < b.entries.len() {
                b.selected + 1
            } else {
                b.entries.len() - 1
            }) as usize,
            ..b
        }
    }
}

/// The highlight one entry up, stopping at the first entry.
pub open spec fn moved_up(b: BrowserView) -> BrowserView {
    BrowserView { selected: (if b.selected > 0 { b.selected - 1 } else { 0 }) as usize, ..b }
}

/// Entering the highlighted entry: a directory becomes the current
/// directory (its listing is read afterwards); the flag says whether the
/// directory changed.
pub open spec fn entered(b: BrowserView) -> (BrowserView, bool) {
    if b.selected < b.entries.len() && b.entries[b.selected as int].is_dir {
        (BrowserView { current_dir: b.entries[b.selected as int].path, ..b }, true)
    } else {
        (b, false)
    }
}

/// Going up: the parent of the current directory, when it has one, becomes
/// the current directory; the flag says whether the directory changed.
pub open spec fn went_up(b: BrowserView) -> (BrowserView, bool) {
    match parent_of(b.current_dir) {
        Some(p) => (BrowserView { current_dir: p, ..b }, true),
        None => (b, false),
    }
}

/// A character typed into the open popup.
pub open spec fn typed(b: BrowserView, c: char) -> BrowserView {
    match b.popup {
        Some(input) => BrowserView { popup: Some(input.push(c)), ..b },
        None => b,
    }
}

/// The last character of the open popup erased.
pub open spec fn erased(b: BrowserView) -> BrowserView {
    match b.popup {
        Some(input) => BrowserView {
            popup: Some(if input.len() > 0 { input.drop_last() } else { input }),
            ..b
        },
        None => b,
    }
}

/// Confirming the popup: when the typed path (trimmed) is a directory, it
/// becomes the current directory and the popup closes; otherwise the popup
/// stays open with its input. The flag says whether the directory changed.
pub open spec fn confirmed(b: BrowserView, target_is_dir: bool) -> (BrowserView, bool) {
    match b.popup {
        Some(input) => if target_is_dir {
            (BrowserView { current_dir: trimmed(input), popup: None, ..b }, true)
        } else {
            (b, false)
        },
        None => (b, false),
    }
}

impl BrowserState {
    /// Starts browsing at `start_dir`, whose listing was read as `listing`.
    pub fn new(start_dir: String, listing: Vec<DirEntryItem>) -> (r: BrowserState)
        ensures
            r.current_dir@ == start_dir@,
            sorts(r.entries@, listing@),
            r.selected == 0,
            r.popup is None,
    {
        BrowserState { current_dir: start_dir, entries: sort_listing(listing), selected: 0, popup: None }
    }

    /// Replaces the entries by a fresh listing of the current directory, in
    /// listing order, and highlights the first.
    pub fn refresh(&mut self, listing: Vec<DirEntryItem>)
        ensures
            final(self).current_dir == old(self).current_dir,
            sorts(final(self).entries@, listing@),
            final(self).selected == 0,
            final(self).popup == old(self).popup,
    {
        self.entries = sort_listing(listing);
        self.selected = 0;
    }

    pub fn move_down(&mut self)
        ensures
            final(self)@ == moved_down(old(self)@),
    {
        if !self.entries.is_empty() {
            self.selected = if self.selected < self.entries.len() - 1 {
                self.selected + 1
            } else {
                self.entries.len() - 1
            };
        }
    }

    pub fn move_up(&mut self)
        ensures
            final(self)@ == moved_up(old(self)@),
    {
        self.selected = if self.selected > 0 { self.selected - 1 } else { 0 };
    }

    /// Enters the highlighted entry when it is a directory; returns whether
    /// the current directory changed, so that its listing is read anew.
    pub fn enter_selected(&mut self) -> (changed: bool)
        ensures
            (final(self)@, changed) == entered(old(self)@),
    {
        if self.selected < self.entries.len() {
            let entry = &self.entries[self.selected];
            if entry.is_dir {
                let path = entry.path.clone();
                self.current_dir = path;
                return true;
            }
        }
        false
    }

    /// Moves to the parent directory when there is one; returns whether the
    /// current directory changed.
    pub fn go_to_parent(&mut self) -> (changed: bool)
        ensures
            (final(self)@, changed) == went_up(old(self)@),
    {
        match parent_dir(self.current_dir.as_str()) {
            Some(p) => {
                self.current_dir = p;
                true
            },
            None => false,
        }
    }

    pub fn open_popup(&mut self)
        ensures
            final(self)@ == (BrowserView { popup: Some(Seq::empty()), ..old(self)@ }),
    {
        self.popup = Some(PathPopup::default());
    }

    pub fn close_popup(&mut self)
        ensures
            final(self)@ == (BrowserView { popup: None, ..old(self)@ }),
    {
        self.popup = None;
    }

    pub fn popup_push_char(&mut self, c: char)
        ensures
            final(self)@ == typed(old(self)@, c),
    {
        if let Some(popup) = &mut self.popup {
            push_char(&mut popup.input, c);
        }
    }

    pub fn popup_backspace(&mut self)
        ensures
            final(self)@ == erased(old(self)@),
    {
        if let Some(popup) = &mut self.popup {
            let _ = pop_char(&mut popup.input);
        }
    }

    /// The path typed into the open popup, trimmed: what confirming it
    /// would navigate to.
    pub fn popup_target(&self) -> (r: Option<String>)
        ensures
            match self.popup {
                Some(p) => r matches Some(t) && t@ == trimmed(p.input@),
                None => r is None,
            },
    {
        match &self.popup {
            Some(p) => Some(trim_str(p.input.as_str())),
            None => None,
        }
    }

    /// Confirms the popup, given whether its trimmed path is a directory:
    /// navigates there and closes the popup if so, else leaves it open.
    /// Returns whether the current directory changed.
    pub fn popup_confirm(&mut self, target_is_dir: bool) -> (changed: bool)
        ensures
            (final(self)@, changed) == confirmed(old(self)@, target_is_dir),
    {
        let target = match &self.popup {
            Some(p) => trim_str(p.input.as_str()),
            None => {
                return false;
            },
        };
        if target_is_dir {
            self.current_dir = target;
            self.popup = None;
            true
        } else {
            false
        }
    }
}

} // verus!

verus! {

/// Moving down always lands on an entry of a non-empty listing; moving up
/// from an entry stays on an entry.
pub proof fn law_highlight_stays_on_an_entry(b: BrowserView)
    requires
        b.entries.len() > 0,
    ensures
        moved_down(b).selected < b.entries.len(),
        b.selected < b.entries.len() ==> moved_up(b).selected < b.entries.len(),
{
}

/// The popup navigates to the typed path if and only if it is a directory;
/// otherwise it stays open with its input.
pub proof fn law_popup_navigates_only_to_directories(b: BrowserView, input: Seq<char>)
    requires
        b.popup == Some(input),
    ensures
        confirmed(b, false) == (b, false),
        confirmed(b, true).0.current_dir == trimmed(input),
        confirmed(b, true).0.popup is None,
        confirmed(b, true).1,
{
}

} // verus!
