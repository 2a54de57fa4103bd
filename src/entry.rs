use vstd::prelude::*;

verus! {

/// Which of the two remote sources an id came from.
#[derive(Clone, Copy, Debug, PartialEq, Eq, Structural)]
pub enum EntryKind {
    Chat,
    User,
}

/// One row of the result list: a chat or a user, by id. A user's id equals
/// the id of their private chat once it exists, so both share one id space.
#[derive(Clone, Copy, Debug, PartialEq, Eq, Structural)]
pub enum ResultEntry {
    Chat(i64),
    User(i64),
}

impl EntryKind {
    pub open spec fn spec_entry(self, id: i64) -> ResultEntry {
        match self {
            EntryKind::Chat => ResultEntry::Chat(id),
            EntryKind::User => ResultEntry::User(id),
        }
    }

    /// The entry of this kind for `id`.
    #[verifier::when_used_as_spec(spec_entry)]
    pub fn entry(self, id: i64) -> (r: ResultEntry)
        ensures
            r == self.spec_entry(id),
    {
        match self {
            EntryKind::Chat => ResultEntry::Chat(id),
            EntryKind::User => ResultEntry::User(id),
        }
    }
}

impl ResultEntry {
    pub open spec fn spec_id(&self) -> i64 {
        match *self {
            ResultEntry::Chat(id) => id,
            ResultEntry::User(id) => id,
        }
    }

    /// The id that the entry refers to.
    #[verifier::when_used_as_spec(spec_id)]
    pub fn id(&self) -> (r: i64)
        ensures
            r == self.spec_id(),
    {
        match self {
            ResultEntry::Chat(id) => *id,
            ResultEntry::User(id) => *id,
        }
    }
}

/// The ids of a sequence of entries, in order.
pub open spec fn ids_of(entries: Seq<ResultEntry>) -> Seq<i64> {
    entries.map_values(|e: ResultEntry| e.spec_id())
}

/// The entries that `ids` give when appended to `entries` in order, each id
/// that is already present (among `entries` or earlier in `ids`) skipped.
pub open spec fn appended(entries: Seq<ResultEntry>, ids: Seq<i64>, kind: EntryKind) -> Seq<
    ResultEntry,
>
    decreases ids.len(),
{
    if ids.len() == 0 {
        entries
    } else {
        let prev = appended(entries, ids.drop_last(), kind);
        if ids_of(prev).contains(ids.last()) {
            prev
        } else {
            prev.push(kind.spec_entry(ids.last()))
        }
    }
}

/// How many elements of `ids` occur in `base`.
pub open spec fn overlap(base: Seq<i64>, ids: Seq<i64>) -> nat
    decreases ids.len(),
{
    if ids.len() == 0 {
        0
    } else {
        overlap(base, ids.drop_last()) + if base.contains(ids.last()) {
            1nat
        } else {
            0nat
        }
    }
}

/// The list of one search: the chat results first, then each contact whose
/// id is not listed yet.
pub open spec fn merged(chats: Seq<i64>, contacts: Seq<i64>) -> Seq<ResultEntry> {
    appended(appended(Seq::empty(), chats, EntryKind::Chat), contacts, EntryKind::User)
}

pub proof fn lemma_ids_of_push(entries: Seq<ResultEntry>, e: ResultEntry)
    ensures
        ids_of(entries.push(e)) == ids_of(entries).push(e.spec_id()),
{
    assert(ids_of(entries.push(e)) =~= ids_of(entries).push(e.spec_id()));
}

/// Pushing an element that is not present keeps a sequence free of duplicates.
pub proof fn lemma_push_fresh(s: Seq<i64>, x: i64)
    requires
        s.no_duplicates(),
        !s.contains(x),
    ensures
        s.push(x).no_duplicates(),
        forall|y: i64| #[trigger] s.push(x).contains(y) <==> (s.contains(y) || y == x),
{
    let t = s.push(x);
    assert forall|i: int, j: int| 0 <= i < t.len() && 0 <= j < t.len() && i != j implies t[i]
        != t[j] by {
        if i == s.len() {
            assert(s[j] == t[j]);
        } else if j == s.len() {
            assert(s[i] == t[i]);
        }
    }
    assert forall|y: i64| #[trigger] t.contains(y) <==> (s.contains(y) || y == x) by {
        if t.contains(y) {
            let j = choose|j: int| 0 <= j < t.len() && t[j] == y;
            if j < s.len() {
                assert(s[j] == y);
            }
        }
        if s.contains(y) {
            let j = choose|j: int| 0 <= j < s.len() && s[j] == y;
            assert(t[j] == y);
        }
        if y == x {
            assert(t[s.len() as int] == y);
        }
    }
}

/// What appending keeps and adds: the old entries stay in front, every new
/// entry has the given kind, the ids are those of both inputs, and no id is
/// listed twice.
pub proof fn lemma_appended(entries: Seq<ResultEntry>, ids: Seq<i64>, kind: EntryKind)
    requires
        ids_of(entries).no_duplicates(),
    ensures
        appended(entries, ids, kind).len() >= entries.len(),
        appended(entries, ids, kind).subrange(0, entries.len() as int) == entries,
        forall|i: int|
            entries.len() <= i < appended(entries, ids, kind).len() ==> appended(
                entries,
                ids,
                kind,
            )[i] == kind.spec_entry(#[trigger] appended(entries, ids, kind)[i].spec_id()),
        forall|x: i64|
            #![trigger ids_of(appended(entries, ids, kind)).contains(x)]
            #![trigger ids_of(entries).contains(x)]
            #![trigger ids.contains(x)]
            ids_of(appended(entries, ids, kind)).contains(x) <==> (ids_of(entries).contains(x)
                || ids.contains(x)),
        ids_of(appended(entries, ids, kind)).no_duplicates(),
        ids.no_duplicates() ==> appended(entries, ids, kind).len() == entries.len() + ids.len()
            - overlap(ids_of(entries), ids),
    decreases ids.len(),
{
    if ids.len() > 0 {
        let prefix = ids.drop_last();
        let x = ids.last();
        lemma_appended(entries, prefix, kind);
        let prev = appended(entries, prefix, kind);
        assert forall|y: i64| ids.contains(y) <==> (prefix.contains(y) || y == x) by {
            if ids.contains(y) {
                let j = choose|j: int| 0 <= j < ids.len() && ids[j] == y;
                if j < ids.len() - 1 {
                    assert(prefix[j] == y);
                }
            }
            if prefix.contains(y) {
                let j = choose|j: int| 0 <= j < prefix.len() && prefix[j] == y;
                assert(ids[j] == y);
            }
            if y == x {
                assert(ids[ids.len() - 1] == y);
            }
        }
        let r = appended(entries, ids, kind);
        if !ids_of(prev).contains(x) {
            let e = kind.spec_entry(x);
            assert(r == prev.push(e));
            lemma_ids_of_push(prev, e);
            lemma_push_fresh(ids_of(prev), x);
            assert(prev.push(e).subrange(0, entries.len() as int) =~= prev.subrange(
                0,
                entries.len() as int,
            ));
        }
        if ids.no_duplicates() {
            assert(prefix.no_duplicates()) by {
                assert forall|i: int, j: int|
                    0 <= i < prefix.len() && 0 <= j < prefix.len() && i != j implies prefix[i]
                    != prefix[j] by {
                    assert(prefix[i] == ids[i] && prefix[j] == ids[j]);
                }
            }
            assert(!prefix.contains(x)) by {
                if prefix.contains(x) {
                    let j = choose|j: int| 0 <= j < prefix.len() && prefix[j] == x;
                    assert(ids[j] == ids[ids.len() - 1]);
                }
            }
        }
    }
}

/// Appending ids that are distinct and all new adds one entry per id, in
/// the order of the ids.
pub proof fn lemma_appended_fresh(entries: Seq<ResultEntry>, ids: Seq<i64>, kind: EntryKind)
    requires
        ids_of(entries).no_duplicates(),
        ids.no_duplicates(),
        forall|i: int| 0 <= i < ids.len() ==> !ids_of(entries).contains(#[trigger] ids[i]),
    ensures
        appended(entries, ids, kind) == entries + ids.map_values(|id: i64| kind.spec_entry(id)),
    decreases ids.len(),
{
    if ids.len() > 0 {
        let prefix = ids.drop_last();
        let x = ids.last();
        assert(prefix.no_duplicates()) by {
            assert forall|i: int, j: int|
                0 <= i < prefix.len() && 0 <= j < prefix.len() && i != j implies prefix[i]
                != prefix[j] by {
                assert(prefix[i] == ids[i] && prefix[j] == ids[j]);
            }
        }
        assert forall|i: int| 0 <= i < prefix.len() implies !ids_of(entries).contains(
            #[trigger] prefix[i],
        ) by {
            assert(prefix[i] == ids[i]);
        }
        lemma_appended_fresh(entries, prefix, kind);
        lemma_appended(entries, prefix, kind);
        assert(!ids_of(entries).contains(ids[ids.len() - 1]));
        assert(!prefix.contains(x)) by {
            if prefix.contains(x) {
                let j = choose|j: int| 0 <= j < prefix.len() && prefix[j] == x;
                assert(ids[j] == ids[ids.len() - 1]);
            }
        }
        assert(entries + ids.map_values(|id: i64| kind.spec_entry(id)) =~= (entries
            + prefix.map_values(|id: i64| kind.spec_entry(id))).push(kind.spec_entry(x)));
    }
}

/// The list of one search: for duplicate-free chat results and contact results,
/// the list holds the chat results first, in their order, then only user
/// entries; its length is the number of chats plus the number of contacts
/// less the contacts that are also chats; it lists each id of either result
/// exactly once and no other.
pub proof fn lemma_merged_results(chats: Seq<i64>, contacts: Seq<i64>)
    requires
        chats.no_duplicates(),
        contacts.no_duplicates(),
    ensures
        merged(chats, contacts).len() == chats.len() + contacts.len() - overlap(chats, contacts),
        merged(chats, contacts).subrange(0, chats.len() as int) == chats.map_values(
            |id: i64| ResultEntry::Chat(id),
        ),
        forall|i: int|
            chats.len() <= i < merged(chats, contacts).len() ==> merged(chats, contacts)[i]
                == ResultEntry::User(#[trigger] merged(chats, contacts)[i].spec_id()),
        ids_of(merged(chats, contacts)).no_duplicates(),
        forall|x: i64|
            #![trigger ids_of(merged(chats, contacts)).contains(x)]
            ids_of(merged(chats, contacts)).contains(x) <==> (chats.contains(x) || contacts.contains(
                x,
            )),
{
    let empty = Seq::<ResultEntry>::empty();
    assert(ids_of(empty) =~= Seq::<i64>::empty());
    let listed = appended(empty, chats, EntryKind::Chat);
    lemma_appended_fresh(empty, chats, EntryKind::Chat);
    assert(listed =~= chats.map_values(|id: i64| ResultEntry::Chat(id)));
    assert(ids_of(listed) =~= chats);
    lemma_appended(empty, chats, EntryKind::Chat);
    lemma_appended(listed, contacts, EntryKind::User);
    assert forall|x: i64| #![trigger ids_of(merged(chats, contacts)).contains(x)]
        ids_of(merged(chats, contacts)).contains(x) <==> (chats.contains(x) || contacts.contains(
            x,
        )) by {
        assert(ids_of(listed).contains(x) <==> chats.contains(x));
    }
}

} // verus!
