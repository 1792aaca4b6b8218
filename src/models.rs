use vstd::prelude::*;

verus! {

/// A user message kept in the archive, keyed by the id the remote service gave it.
#[derive(Debug, Clone)]
pub struct Message {
    pub text: String,
    pub chat_id: i64,
    pub message_id: i64,
}

/// The navigation card currently shown in a chat: `id` is the remote id of the card
/// itself, `message_id` the archived message it stands for, `text` a diagnostic label.
#[derive(Debug, Clone)]
pub struct LinkMessage {
    pub id: i64,
    pub text: String,
    pub chat_id: i64,
    pub message_id: i64,
}

/// A request to rewrite the text of an archived message.
#[derive(Debug, Clone)]
pub struct EditedMessage {
    pub message_id: i64,
    pub text: String,
}

/// The row of the offset cursor: `update_id` is the next update id to request.
#[derive(Debug, Clone)]
pub struct Update {
    pub id: i64,
    pub update_id: i64,
}

/// The durable state: the message archive, the navigation links and the offset cursor.
pub struct Store {
    messages: Vec<Message>,
    links: Vec<LinkMessage>,
    cursor: Update,
}

/// Some archived message carries the id `id`.
pub open spec fn archived(s: Seq<Message>, id: i64) -> bool {
    exists|i: int| 0 <= i < s.len() && #[trigger] s[i].message_id == id
}

/// No two archived messages share an id.
pub open spec fn unique_ids(s: Seq<Message>) -> bool {
    forall|i: int, j: int|
        0 <= i < s.len() && 0 <= j < s.len() && i != j ==> #[trigger] s[i].message_id
            != #[trigger] s[j].message_id
}

/// No two navigation links belong to the same chat.
pub open spec fn one_link_per_chat(l: Seq<LinkMessage>) -> bool {
    forall|i: int, j: int|
        0 <= i < l.len() && 0 <= j < l.len() && i != j ==> #[trigger] l[i].chat_id
            != #[trigger] l[j].chat_id
}

/// Some navigation link belongs to chat `chat_id`.
pub open spec fn linked(l: Seq<LinkMessage>, chat_id: i64) -> bool {
    exists|i: int| 0 <= i < l.len() && #[trigger] l[i].chat_id == chat_id
}

/// The number of navigation links of chat `chat_id`.
pub open spec fn link_count(l: Seq<LinkMessage>, chat_id: i64) -> nat
    decreases l.len(),
{
    if l.len() == 0 {
        0
    } else {
        link_count(l.drop_last(), chat_id) + if l.last().chat_id == chat_id {
            1nat
        } else {
            0nat
        }
    }
}

/// The archive after inserting `m`: unchanged when its id is already there.
pub open spec fn with_archived(s: Seq<Message>, m: Message) -> Seq<Message> {
    if archived(s, m.message_id) {
        s
    } else {
        s.push(m)
    }
}

/// `m` with its text replaced by `text` when its id is `id`.
pub open spec fn edited_one(m: Message, id: i64, text: String) -> Message {
    if m.message_id == id {
        Message { text, chat_id: m.chat_id, message_id: m.message_id }
    } else {
        m
    }
}

/// The archive after rewriting the text of the message with id `id`.
pub open spec fn with_edit(s: Seq<Message>, id: i64, text: String) -> Seq<Message> {
    s.map_values(|m: Message| edited_one(m, id, text))
}



/// `m` belongs to chat `chat_id` and its id lies strictly between `lo` and `hi`.
pub open spec fn in_window(m: Message, chat_id: i64, lo: int, hi: int) -> bool {
    m.chat_id == chat_id && lo < m.message_id < hi
}

/// `m` is an archived message of the window with the smallest id there.
pub open spec fn is_lowest_in(s: Seq<Message>, m: Message, chat_id: i64, lo: int, hi: int) -> bool {
    &&& s.contains(m)
    &&& in_window(m, chat_id, lo, hi)
    &&& forall|j: int|
        0 <= j < s.len() && in_window(#[trigger] s[j], chat_id, lo, hi) ==> m.message_id
            <= s[j].message_id
}

/// `m` is an archived message of the window with the greatest id there.
pub open spec fn is_highest_in(s: Seq<Message>, m: Message, chat_id: i64, lo: int, hi: int) -> bool {
    &&& s.contains(m)
    &&& in_window(m, chat_id, lo, hi)
    &&& forall|j: int|
        0 <= j < s.len() && in_window(#[trigger] s[j], chat_id, lo, hi) ==> s[j].message_id
            <= m.message_id
}

/// Some archived message lies in the window.
pub open spec fn window_occupied(s: Seq<Message>, chat_id: i64, lo: int, hi: int) -> bool {
    exists|j: int| 0 <= j < s.len() && in_window(#[trigger] s[j], chat_id, lo, hi)
}

/// Below every id a message can carry.
pub open spec fn below_ids() -> int {
    i64::MIN - 1
}

/// Above every id a message can carry.
pub open spec fn above_ids() -> int {
    i64::MAX + 1
}

impl Store {
    /// The archived messages, in order of insertion.
    pub closed spec fn messages(&self) -> Seq<Message> {
        self.messages@
    }

    /// The navigation links.
    pub closed spec fn links(&self) -> Seq<LinkMessage> {
        self.links@
    }

    /// The next update id to request.
    pub closed spec fn cursor(&self) -> i64 {
        self.cursor.update_id
    }

    /// Message ids are unique and each chat has at most one navigation link.
    pub open spec fn wf(&self) -> bool {
        unique_ids(self.messages()) && one_link_per_chat(self.links())
    }

    /// An empty archive, no navigation links and the cursor at `update_id`.
    pub fn new(update_id: i64) -> (r: Store)
        ensures
            r.wf(),
            r.messages() == Seq::<Message>::empty(),
            r.links() == Seq::<LinkMessage>::empty(),
            r.cursor() == update_id,
    {
        Store { messages: Vec::new(), links: Vec::new(), cursor: Update { id: 1, update_id } }
    }
}

impl Message {
    pub fn new(text: String, chat_id: i64, message_id: i64) -> (r: Message)
        ensures
            r == (Message { text, chat_id, message_id }),
    {
        Message { text, chat_id, message_id }
    }

    /// Archives this message unless its id is archived already (the first write wins).
    /// Returns whether a row was added.
    pub fn insert(&self, store: &mut Store) -> (r: bool)
        requires
            old(store).wf(),
        ensures
            final(store).wf(),
            final(store).messages() == with_archived(old(store).messages(), *self),
            r == !archived(old(store).messages(), self.message_id),
            archived(old(store).messages(), self.message_id) ==> final(store).messages()
                == old(store).messages(),
            final(store).links() == old(store).links(),
            final(store).cursor() == old(store).cursor(),
    {
        let mut i: usize = 0;
        while i < store.messages.len()
            invariant
                *store == *old(store),
                store.wf(),
                0 <= i <= store.messages@.len(),
                forall|j: int| 0 <= j < i ==> store.messages@[j].message_id != self.message_id,
            decreases store.messages@.len() - i,
        {
            if store.messages[i].message_id == self.message_id {
                return false;
            }
            i = i + 1;
        }
        let m = Message { text: self.text.clone(), chat_id: self.chat_id, message_id: self.message_id };
        store.messages.push(m);
        assert(unique_ids(store.messages@)) by {
            assert forall|a: int, b: int|
                0 <= a < store.messages@.len() && 0 <= b < store.messages@.len() && a != b
                implies #[trigger] store.messages@[a].message_id
                != #[trigger] store.messages@[b].message_id by {
                let n = store.messages@.len() - 1;
                if a != n && b != n {
                    assert(store.messages@[a] == old(store).messages@[a]);
                    assert(store.messages@[b] == old(store).messages@[b]);
                }
            }
        }
        true
    }
}


impl Store {
    /// The message of chat `chat_id` with the smallest id above `after` (above nothing
    /// when `after` is `None`).
    fn lowest_after(&self, chat_id: i64, after: Option<i64>) -> (r: Option<Message>)
        ensures
            ({
                let lo = match after {
                    Some(a) => a as int,
                    None => below_ids(),
                };
                match r {
                    Some(m) => is_lowest_in(self.messages(), m, chat_id, lo, above_ids()),
                    None => !window_occupied(self.messages(), chat_id, lo, above_ids()),
                }
            }),
    {
        let ghost lo = match after {
            Some(a) => a as int,
            None => below_ids(),
        };
        let mut best: Option<usize> = None;
        let mut i: usize = 0;
        while i < self.messages.len()
            invariant
                0 <= i <= self.messages@.len(),
                lo == match after {
                    Some(a) => a as int,
                    None => below_ids(),
                },
                match best {
                    Some(b) => {
                        &&& b < i
                        &&& in_window(self.messages@[b as int], chat_id, lo, above_ids())
                        &&& forall|j: int|
                            0 <= j < i && in_window(#[trigger] self.messages@[j], chat_id, lo, above_ids())
                                ==> self.messages@[b as int].message_id <= self.messages@[j].message_id
                    },
                    None => forall|j: int|
                        0 <= j < i ==> !in_window(#[trigger] self.messages@[j], chat_id, lo, above_ids()),
                },
            decreases self.messages@.len() - i,
        {
            let m = &self.messages[i];
            let fits = m.chat_id == chat_id && match after {
                Some(a) => m.message_id > a,
                None => true,
            };
            if fits {
                match best {
                    Some(b) => {
                        if m.message_id < self.messages[b].message_id {
                            best = Some(i);
                        }
                    },
                    None => {
                        best = Some(i);
                    },
                }
            }
            i = i + 1;
        }
        match best {
            Some(b) => {
                let m = &self.messages[b];
                let r = Message { text: m.text.clone(), chat_id: m.chat_id, message_id: m.message_id };
                assert(self.messages@[b as int] == r);
                Some(r)
            },
            None => None,
        }
    }

    /// The message of chat `chat_id` with the greatest id below `before`.
    fn highest_before(&self, chat_id: i64, before: i64) -> (r: Option<Message>)
        ensures
            match r {
                Some(m) => is_highest_in(self.messages(), m, chat_id, below_ids(), before as int),
                None => !window_occupied(self.messages(), chat_id, below_ids(), before as int),
            },
    {
        let mut best: Option<usize> = None;
        let mut i: usize = 0;
        while i < self.messages.len()
            invariant
                0 <= i <= self.messages@.len(),
                match best {
                    Some(b) => {
                        &&& b < i
                        &&& in_window(self.messages@[b as int], chat_id, below_ids(), before as int)
                        &&& forall|j: int|
                            0 <= j < i && in_window(#[trigger] self.messages@[j], chat_id, below_ids(), before as int)
                                ==> self.messages@[j].message_id <= self.messages@[b as int].message_id
                    },
                    None => forall|j: int|
                        0 <= j < i ==> !in_window(#[trigger] self.messages@[j], chat_id, below_ids(), before as int),
                },
            decreases self.messages@.len() - i,
        {
            let m = &self.messages[i];
            if m.chat_id == chat_id && m.message_id < before {
                match best {
                    Some(b) => {
                        if m.message_id > self.messages[b].message_id {
                            best = Some(i);
                        }
                    },
                    None => {
                        best = Some(i);
                    },
                }
            }
            i = i + 1;
        }
        match best {
            Some(b) => {
                let m = &self.messages[b];
                let r = Message { text: m.text.clone(), chat_id: m.chat_id, message_id: m.message_id };
                assert(self.messages@[b as int] == r);
                Some(r)
            },
            None => None,
        }
    }
}

impl Message {
    /// The message of chat `chat_id` with the smallest id greater than `id`, if any.
    pub fn select_next_message(chat_id: i64, store: &Store, id: i64) -> (r: Option<Message>)
        ensures
            match r {
                Some(m) => is_lowest_in(store.messages(), m, chat_id, id as int, above_ids()),
                None => !window_occupied(store.messages(), chat_id, id as int, above_ids()),
            },
    {
        store.lowest_after(chat_id, Some(id))
    }

    /// The message of chat `chat_id` with the greatest id smaller than `id`, if any.
    pub fn select_last_message(chat_id: i64, store: &Store, id: i64) -> (r: Option<Message>)
        ensures
            match r {
                Some(m) => is_highest_in(store.messages(), m, chat_id, below_ids(), id as int),
                None => !window_occupied(store.messages(), chat_id, below_ids(), id as int),
            },
    {
        store.highest_before(chat_id, id)
    }

    /// The message of chat `chat_id` with the smallest id, if the chat has any.
    pub fn select_first_user_message_by_chat_id(chat_id: i64, store: &Store) -> (r: Option<Message>)
        ensures
            match r {
                Some(m) => is_lowest_in(store.messages(), m, chat_id, below_ids(), above_ids()),
                None => !window_occupied(store.messages(), chat_id, below_ids(), above_ids()),
            },
    {
        store.lowest_after(chat_id, None)
    }
}

impl EditedMessage {
    pub fn new(message_id: i64, text: String) -> (r: EditedMessage)
        ensures
            r == (EditedMessage { message_id, text }),
    {
        EditedMessage { message_id, text }
    }

    /// Rewrites the text of the archived message with this id; does nothing when the id is
    /// not archived. Returns whether a row matched.
    pub fn change_message_text(&self, store: &mut Store) -> (r: bool)
        requires
            old(store).wf(),
        ensures
            final(store).wf(),
            final(store).messages() == with_edit(old(store).messages(), self.message_id, self.text),
            r == archived(old(store).messages(), self.message_id),
            final(store).links() == old(store).links(),
            final(store).cursor() == old(store).cursor(),
    {
        let ghost before = store.messages@;
        let mut found = false;
        let mut i: usize = 0;
        while i < store.messages.len()
            invariant
                before == old(store).messages@,
                store.links@ == old(store).links@,
                store.cursor == old(store).cursor,
                unique_ids(before),
                0 <= i <= store.messages@.len(),
                store.messages@.len() == before.len(),
                forall|j: int| 0 <= j < i ==> #[trigger] store.messages@[j] == edited_one(before[j], self.message_id, self.text),
                forall|j: int| i <= j < before.len() ==> #[trigger] store.messages@[j] == before[j],
                found == exists|j: int| 0 <= j < i && #[trigger] before[j].message_id == self.message_id,
            decreases before.len() - i,
        {
            if store.messages[i].message_id == self.message_id {
                let m = Message {
                    text: self.text.clone(),
                    chat_id: store.messages[i].chat_id,
                    message_id: self.message_id,
                };
                store.messages[i] = m;
                found = true;
            }
            i = i + 1;
        }
        assert(store.messages@ =~= with_edit(before, self.message_id, self.text));
        assert(unique_ids(store.messages@)) by {
            assert forall|a: int, b: int|
                0 <= a < store.messages@.len() && 0 <= b < store.messages@.len() && a != b
                implies #[trigger] store.messages@[a].message_id
                != #[trigger] store.messages@[b].message_id by {
                assert(store.messages@[a].message_id == before[a].message_id);
                assert(store.messages@[b].message_id == before[b].message_id);
            }
        }
        found
    }
}

impl LinkMessage {
    pub fn new(id: i64, text: String, chat_id: i64, message_id: i64) -> (r: LinkMessage)
        ensures
            r == (LinkMessage { id, text, chat_id, message_id }),
    {
        LinkMessage { id, text, chat_id, message_id }
    }

    /// Records this navigation link, unless its chat already has one (the first write
    /// wins). Returns whether it was recorded.
    pub fn insert(&self, store: &mut Store) -> (r: bool)
        requires
            old(store).wf(),
        ensures
            final(store).wf(),
            r == !linked(old(store).links(), self.chat_id),
            final(store).links() == if r {
                old(store).links().push(*self)
            } else {
                old(store).links()
            },
            final(store).messages() == old(store).messages(),
            final(store).cursor() == old(store).cursor(),
    {
        let mut i: usize = 0;
        while i < store.links.len()
            invariant
                *store == *old(store),
                store.wf(),
                0 <= i <= store.links@.len(),
                forall|j: int|
                    0 <= j < i ==> (#[trigger] store.links@[j]).chat_id != self.chat_id,
            decreases store.links@.len() - i,
        {
            if store.links[i].chat_id == self.chat_id {
                return false;
            }
            i = i + 1;
        }
        let l = LinkMessage {
            id: self.id,
            text: self.text.clone(),
            chat_id: self.chat_id,
            message_id: self.message_id,
        };
        store.links.push(l);
        assert(one_link_per_chat(store.links@)) by {
            assert forall|a: int, b: int|
                0 <= a < store.links@.len() && 0 <= b < store.links@.len() && a != b
                implies #[trigger] store.links@[a].chat_id
                != #[trigger] store.links@[b].chat_id by {
                let n = store.links@.len() - 1;
                if a != n && b != n {
                    assert(store.links@[a] == old(store).links@[a]);
                    assert(store.links@[b] == old(store).links@[b]);
                }
            }
        }
        true
    }

    /// Removes the navigation link of chat `chat_id` and hands it back, if there is one.
    pub fn delete_and_return_link(store: &mut Store, chat_id: i64) -> (r: Option<LinkMessage>)
        requires
            old(store).wf(),
        ensures
            final(store).wf(),
            !linked(final(store).links(), chat_id),
            match r {
                Some(l) => {
                    &&& l.chat_id == chat_id
                    &&& exists|i: int|
                        0 <= i < old(store).links().len() && old(store).links()[i] == l
                            && final(store).links() == old(store).links().remove(i)
                },
                None => !linked(old(store).links(), chat_id) && final(store).links() == old(
                    store,
                ).links(),
            },
            final(store).messages() == old(store).messages(),
            final(store).cursor() == old(store).cursor(),
    {
        let mut i: usize = 0;
        while i < store.links.len()
            invariant
                *store == *old(store),
                store.wf(),
                0 <= i <= store.links@.len(),
                forall|j: int| 0 <= j < i ==> #[trigger] store.links@[j].chat_id != chat_id,
            decreases store.links@.len() - i,
        {
            if store.links[i].chat_id == chat_id {
                let ghost k = i as int;
                let l = store.links.remove(i);
                assert(one_link_per_chat(store.links@)) by {
                    assert forall|a: int, b: int|
                        0 <= a < store.links@.len() && 0 <= b < store.links@.len() && a != b
                        implies #[trigger] store.links@[a].chat_id
                        != #[trigger] store.links@[b].chat_id by {
                        let a0 = if a < k { a } else { a + 1 };
                        let b0 = if b < k { b } else { b + 1 };
                        assert(store.links@[a] == old(store).links@[a0]);
                        assert(store.links@[b] == old(store).links@[b0]);
                    }
                }
                assert(!linked(store.links@, chat_id)) by {
                    assert forall|a: int| 0 <= a < store.links@.len()
                        implies #[trigger] store.links@[a].chat_id != chat_id by {
                        let a0 = if a < k { a } else { a + 1 };
                        assert(store.links@[a] == old(store).links@[a0]);
                    }
                }
                return Some(l);
            }
            i = i + 1;
        }
        None
    }
}

impl Update {
    pub fn new(id: i64, update_id: i64) -> (r: Update)
        ensures
            r == (Update { id, update_id }),
    {
        Update { id, update_id }
    }

    /// Acknowledges this update: the cursor moves to the update id after it.
    pub fn insert(&self, store: &mut Store)
        requires
            self.update_id < i64::MAX,
        ensures
            final(store).wf() == old(store).wf(),
            final(store).cursor() == self.update_id + 1,
            final(store).messages() == old(store).messages(),
            final(store).links() == old(store).links(),
    {
        store.cursor = Update { id: 1, update_id: self.update_id + 1 };
    }

    /// The cursor row: the next update id to request.
    pub fn get_last_update(store: &Store) -> (r: Update)
        ensures
            r.id == 1,
            r.update_id == store.cursor(),
    {
        Update { id: 1, update_id: store.cursor.update_id }
    }
}

/// Each chat has zero or one navigation link in a well-formed store.
pub proof fn lemma_at_most_one_link(store: &Store, chat_id: i64)
    requires
        store.wf(),
    ensures
        link_count(store.links(), chat_id) <= 1,
{
    lemma_count_distinct_chats(store.links(), chat_id);
}

proof fn lemma_count_distinct_chats(l: Seq<LinkMessage>, chat_id: i64)
    requires
        one_link_per_chat(l),
    ensures
        link_count(l, chat_id) <= 1,
        link_count(l, chat_id) == 1 <==> linked(l, chat_id),
    decreases l.len(),
{
    if l.len() > 0 {
        let p = l.drop_last();
        assert forall|a: int, b: int|
            0 <= a < p.len() && 0 <= b < p.len() && a != b implies #[trigger] p[a].chat_id
            != #[trigger] p[b].chat_id by {
            assert(p[a] == l[a] && p[b] == l[b]);
        }
        lemma_count_distinct_chats(p, chat_id);
        if l.last().chat_id == chat_id {
            assert(l[l.len() - 1].chat_id == chat_id);
            if linked(p, chat_id) {
                let k = choose|k: int| 0 <= k < p.len() && #[trigger] p[k].chat_id == chat_id;
                assert(l[k].chat_id == chat_id);
            }
        }
        if linked(l, chat_id) && l.last().chat_id != chat_id {
            let k = choose|k: int| 0 <= k < l.len() && #[trigger] l[k].chat_id == chat_id;
            assert(p[k].chat_id == chat_id);
        }
        if linked(p, chat_id) {
            let k = choose|k: int| 0 <= k < p.len() && #[trigger] p[k].chat_id == chat_id;
            assert(l[k].chat_id == chat_id);
        }
    }
}

/// Archiving a message and then editing its id leaves exactly one row with that id, and
/// that row carries the edited text.
pub proof fn lemma_edit_after_archive(s: Seq<Message>, m: Message, text: String)
    requires
        unique_ids(s),
    ensures
        ({
            let r = with_edit(with_archived(s, m), m.message_id, text);
            exists|i: int|
                0 <= i < r.len() && r[i].message_id == m.message_id && r[i].text == text
                    && forall|j: int|
                    0 <= j < r.len() && j != i ==> #[trigger] r[j].message_id != m.message_id
        }),
{
    let a = with_archived(s, m);
    let r = with_edit(a, m.message_id, text);
    let i = if archived(s, m.message_id) {
        choose|i: int| 0 <= i < s.len() && #[trigger] s[i].message_id == m.message_id
    } else {
        s.len() as int
    };
    assert(a[i].message_id == m.message_id);
    assert(r[i] == edited_one(a[i], m.message_id, text));
    assert forall|j: int| 0 <= j < r.len() && j != i implies #[trigger] r[j].message_id
        != m.message_id by {
        assert(r[j] == edited_one(a[j], m.message_id, text));
        if !archived(s, m.message_id) {
            assert(a[j] == s[j]);
        }
    }
}

} // verus!
