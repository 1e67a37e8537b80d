use vstd::prelude::*;

use crate::note::{Note, NoteRecord};
use crate::text::{ascii_lower, ascii_lower_text, lowered_chars, occurs, occurs_in};

verus! {

/// Whether a note body answers a query: the query stands in the body, ASCII
/// letters compared without regard to case, every other character as it
/// is. `%`, `_` and quotes are ordinary characters; the empty query answers
/// every body.
pub open spec fn note_matches(body: Seq<char>, query: Seq<char>) -> bool {
    occurs_in(ascii_lower_text(query), ascii_lower_text(body))
}

/// Whether `a` is listed before `b`: newer creation time first, and among
/// notes created at the same time the larger id first.
pub open spec fn listed_before(a: (i64, Seq<char>, i64, i64), b: (i64, Seq<char>, i64, i64)) -> bool {
    a.2 > b.2 || (a.2 == b.2 && a.0 > b.0)
}

/// Whether the notes `out` are listed in search order, each strictly before
/// the next (so no note comes twice).
pub open spec fn in_listing_order(out: Seq<Note>) -> bool {
    forall|i: int, j: int| 0 <= i < j < out.len() ==> listed_before(#[trigger] out[i]@, #[trigger] out[j]@)
}

/// No two rows share an id.
pub open spec fn distinct_ids(rows: Seq<Note>) -> bool {
    forall|i: int, j: int| 0 <= i < j < rows.len() ==> #[trigger] rows[i].id != #[trigger] rows[j].id
}

/// Whether `out` lists exactly the rows of `rows` whose body answers `query`,
/// in search order.
pub open spec fn lists_matching_rows(rows: Seq<Note>, query: Seq<char>, out: Seq<Note>) -> bool {
    &&& forall|a: int|
        0 <= a < out.len() ==> note_matches(#[trigger] out[a].body@, query) && exists|j: int|
            0 <= j < rows.len() && rows[j]@ == out[a]@
    &&& forall|j: int|
        0 <= j < rows.len() && note_matches(#[trigger] rows[j].body@, query) ==> exists|a: int|
            0 <= a < out.len() && out[a]@ == rows[j]@
    &&& in_listing_order(out)
}

/// Whether `out` is the answer to `query` over the notes table `table`: the
/// notes of the table whose body answers the query, each as the table keeps
/// it, newest first.
pub open spec fn is_search_result(table: Map<i64, NoteRecord>, query: Seq<char>, out: Seq<Note>) -> bool {
    &&& forall|a: int|
        0 <= a < out.len() ==> {
            &&& table.contains_key(#[trigger] out[a].id)
            &&& table[out[a].id] == out[a].record()
            &&& note_matches(out[a].body@, query)
        }
    &&& forall|k: i64|
        table.contains_key(k) && note_matches(table[k].0, query) ==> exists|a: int|
            0 <= a < out.len() && #[trigger] out[a].id == k
    &&& in_listing_order(out)
}

/// Whether `rows` are the rows of the notes table `table`, each once.
pub open spec fn rows_of_table(rows: Seq<Note>, table: Map<i64, NoteRecord>) -> bool {
    &&& forall|i: int|
        0 <= i < rows.len() ==> table.contains_key(#[trigger] rows[i].id) && table[rows[i].id]
            == rows[i].record()
    &&& forall|k: i64| table.contains_key(k) ==> exists|i: int| 0 <= i < rows.len() && #[trigger] rows[i].id == k
    &&& distinct_ids(rows)
}

/// Listing the matching rows of a table answers the search over the table.
pub proof fn lemma_matching_rows_answer_search(
    rows: Seq<Note>,
    table: Map<i64, NoteRecord>,
    query: Seq<char>,
    out: Seq<Note>,
)
    requires
        rows_of_table(rows, table),
        lists_matching_rows(rows, query, out),
    ensures
        is_search_result(table, query, out),
{
    assert forall|a: int| 0 <= a < out.len() implies {
        &&& table.contains_key(#[trigger] out[a].id)
        &&& table[out[a].id] == out[a].record()
        &&& note_matches(out[a].body@, query)
    } by {
        let j = choose|j: int| 0 <= j < rows.len() && rows[j]@ == out[a]@;
        assert(table.contains_key(rows[j].id));
    }
    assert forall|k: i64| table.contains_key(k) && note_matches(table[k].0, query) implies exists|a: int|
        0 <= a < out.len() && #[trigger] out[a].id == k by {
        let i = choose|i: int| 0 <= i < rows.len() && #[trigger] rows[i].id == k;
        assert(note_matches(rows[i].body@, query));
        let a = choose|a: int| 0 <= a < out.len() && out[a]@ == rows[i]@;
        assert(out[a].id == k);
    }
}

/// Listing order is total on notes with different ids.
pub proof fn lemma_listing_order_total(a: (i64, Seq<char>, i64, i64), b: (i64, Seq<char>, i64, i64))
    requires
        a.0 != b.0,
    ensures
        listed_before(a, b) || listed_before(b, a),
{
}

/// Whether `query` answers `body`, given both already in ASCII lower case.
fn answers(lowered_query: &Vec<char>, body: &String) -> (yes: bool)
    ensures
        yes == occurs_in(lowered_query@, ascii_lower_text(body@)),
{
    let lowered_body = lowered_chars(body.as_str());
    occurs(lowered_query, &lowered_body)
}

/// The rows whose body answers `query`, newest first (ties broken by the
/// larger id first).
#[verifier::loop_isolation(false)]
pub fn select_matching(rows: &Vec<Note>, query: &str) -> (out: Vec<Note>)
    requires
        distinct_ids(rows@),
    ensures
        lists_matching_rows(rows@, query@, out@),
{
    let lowered_query = lowered_chars(query);
    let mut out: Vec<Note> = Vec::new();
    let n = rows.len();
    for i in 0..n
        invariant
            n == rows@.len(),
            distinct_ids(rows@),
            lowered_query@ == ascii_lower_text(query@),
            forall|a: int|
                0 <= a < out@.len() ==> note_matches(#[trigger] out@[a].body@, query@) && exists|j: int|
                    0 <= j < i && rows@[j]@ == out@[a]@,
            forall|j: int|
                0 <= j < i && note_matches(#[trigger] rows@[j].body@, query@) ==> exists|a: int|
                    0 <= a < out@.len() && out@[a]@ == rows@[j]@,
            in_listing_order(out@),
    {
        if answers(&lowered_query, &rows[i].body) {
            let note = rows[i].duplicate();
            let mut p: usize = 0;
            while p < out.len() && !(note.created_at > out[p].created_at || (note.created_at
                == out[p].created_at && note.id > out[p].id))
                invariant
                    p <= out@.len(),
                    forall|a: int| 0 <= a < p ==> listed_before(#[trigger] out@[a]@, note@),
                decreases out@.len() - p,
            {
                proof {
                    // out[p] stems from an earlier row, so its id differs from this one
                    let j = choose|j: int| 0 <= j < i && rows@[j]@ == out@[p as int]@;
                    assert(rows@[j].id != rows@[i as int].id);
                    lemma_listing_order_total(out@[p as int]@, note@);
                }
                p += 1;
            }
            let ghost before = out@;
            out.insert(p, note);
            proof {
                assert(out@ == before.insert(p as int, note));
                assert forall|a: int, b: int| 0 <= a < b < out@.len() implies listed_before(
                    #[trigger] out@[a]@,
                    #[trigger] out@[b]@,
                ) by {
                    if b == p {
                    } else if a == p {
                        // note is listed before before[p], which is listed before the rest
                        assert(listed_before(note@, before[p as int]@));
                        if b > p + 1 {
                            assert(listed_before(before[p as int]@, before[b - 1]@));
                        }
                    } else if a < p && b > p {
                        assert(listed_before(before[a]@, note@));
                    }
                }
                assert forall|a: int| 0 <= a < out@.len() implies note_matches(#[trigger] out@[a].body@, query@)
                    && exists|j: int| 0 <= j < i + 1 && rows@[j]@ == out@[a]@ by {
                    if a < p {
                        assert(out@[a] == before[a]);
                    } else if a > p {
                        assert(out@[a] == before[a - 1]);
                    } else {
                        assert(rows@[i as int]@ == out@[a]@);
                    }
                }
                assert forall|j: int| 0 <= j < i + 1 && note_matches(#[trigger] rows@[j].body@, query@) implies exists|a: int|
                    0 <= a < out@.len() && out@[a]@ == rows@[j]@ by {
                    if j == i {
                        assert(out@[p as int]@ == rows@[j]@);
                    } else {
                        let a0 = choose|a: int| 0 <= a < before.len() && before[a]@ == rows@[j]@;
                        if a0 < p {
                            assert(out@[a0]@ == rows@[j]@);
                        } else {
                            assert(out@[a0 + 1]@ == rows@[j]@);
                        }
                    }
                }
            }
        }
    }
    assert forall|a: int| 0 <= a < out@.len() implies exists|j: int|
        0 <= j < rows@.len() && rows@[j]@ == #[trigger] out@[a]@ by {
        let j = choose|j: int| 0 <= j < n && rows@[j]@ == out@[a]@;
    }
    // the loop has run over every row
    assert(in_listing_order(out@));
    assert(forall|a: int| 0 <= a < out@.len() ==> note_matches(#[trigger] out@[a].body@, query@));
    assert(forall|j: int|
        0 <= j < rows@.len() && note_matches(#[trigger] rows@[j].body@, query@) ==> exists|a: int|
            0 <= a < out@.len() && out@[a]@ == rows@[j]@);
    out
}

/// The empty query answers every body.
pub proof fn lemma_empty_query_answers(body: Seq<char>)
    ensures
        note_matches(body, Seq::<char>::empty()),
{
    let q = ascii_lower_text(Seq::<char>::empty());
    let b = ascii_lower_text(body);
    assert(q.len() == 0);
    assert(b.subrange(0int, 0int + q.len()) =~= q);
}

/// Law: a memo's body answers a query made of any piece of it, whatever
/// the case of its ASCII letters; in particular the whole body answers.
pub proof fn law_piece_of_body_answers(body: Seq<char>, from: int, to: int, query: Seq<char>)
    requires
        0 <= from <= to <= body.len(),
        ascii_lower_text(query) == ascii_lower_text(body.subrange(from, to)),
    ensures
        note_matches(body, query),
{
    let lb = ascii_lower_text(body);
    let lq = ascii_lower_text(query);
    assert(lb.subrange(from, from + lq.len()) =~= lq);
}

/// Law: the empty query lists every memo, each once, newest first.
pub proof fn law_empty_query_lists_every_memo(table: Map<i64, NoteRecord>, out: Seq<Note>)
    requires
        is_search_result(table, Seq::<char>::empty(), out),
    ensures
        forall|k: i64| table.contains_key(k) <==> exists|a: int| 0 <= a < out.len() && #[trigger] out[a].id == k,
        forall|a: int| 0 <= a < out.len() ==> table[#[trigger] out[a].id] == out[a].record(),
        in_listing_order(out),
{
    assert forall|k: i64| table.contains_key(k) implies exists|a: int| 0 <= a < out.len() && #[trigger] out[a].id == k by {
        lemma_empty_query_answers(table[k].0);
    }
}

/// Whether the note `x` is listed in `s`.
pub open spec fn listed_in(x: (i64, Seq<char>, i64, i64), s: Seq<Note>) -> bool {
    exists|j: int| 0 <= j < s.len() && s[j]@ == x
}

/// Whether `a` and `b` list the same notes.
pub open spec fn same_members(a: Seq<Note>, b: Seq<Note>) -> bool {
    &&& forall|i: int| 0 <= i < a.len() ==> listed_in(#[trigger] a[i]@, b)
    &&& forall|j: int| 0 <= j < b.len() ==> listed_in(#[trigger] b[j]@, a)
}

/// In two lists in listing order with the same members, the first notes agree.
proof fn lemma_first_notes_agree(a: Seq<Note>, b: Seq<Note>)
    requires
        in_listing_order(a),
        in_listing_order(b),
        same_members(a, b),
        a.len() > 0,
    ensures
        b.len() > 0,
        a[0]@ == b[0]@,
{
    assert(listed_in(a[0]@, b));
    let j = choose|j: int| 0 <= j < b.len() && b[j]@ == a[0]@;
    assert(listed_in(b[0]@, a));
    let i = choose|i: int| 0 <= i < a.len() && a[i]@ == b[0]@;
    if j > 0 {
        assert(listed_before(b[0]@, b[j]@));
        if i > 0 {
            assert(listed_before(a[0]@, a[i]@));
        }
        assert(false);
    }
}

/// Dropping the agreeing first notes keeps the lists' members the same.
proof fn lemma_rests_have_same_members(a: Seq<Note>, b: Seq<Note>)
    requires
        in_listing_order(a),
        in_listing_order(b),
        same_members(a, b),
        a.len() > 0,
        b.len() > 0,
        a[0]@ == b[0]@,
    ensures
        same_members(a.drop_first(), b.drop_first()),
        in_listing_order(a.drop_first()),
        in_listing_order(b.drop_first()),
{
    let ta = a.drop_first();
    let tb = b.drop_first();
    assert forall|i: int| 0 <= i < ta.len() implies listed_in(#[trigger] ta[i]@, tb) by {
        assert(ta[i] == a[i + 1]);
        assert(listed_in(a[i + 1]@, b));
        let j = choose|j: int| 0 <= j < b.len() && b[j]@ == a[i + 1]@;
        assert(listed_before(a[0]@, a[i + 1]@));
        assert(j != 0);
        assert(tb[j - 1] == b[j]);
    }
    assert forall|j: int| 0 <= j < tb.len() implies listed_in(#[trigger] tb[j]@, ta) by {
        assert(tb[j] == b[j + 1]);
        assert(listed_in(b[j + 1]@, a));
        let i = choose|i: int| 0 <= i < a.len() && a[i]@ == b[j + 1]@;
        assert(listed_before(b[0]@, b[j + 1]@));
        assert(i != 0);
        assert(ta[i - 1] == a[i]);
    }
    assert forall|x: int, y: int| 0 <= x < y < ta.len() implies listed_before(#[trigger] ta[x]@, #[trigger] ta[y]@) by {
        assert(ta[x] == a[x + 1] && ta[y] == a[y + 1]);
    }
    assert forall|x: int, y: int| 0 <= x < y < tb.len() implies listed_before(#[trigger] tb[x]@, #[trigger] tb[y]@) by {
        assert(tb[x] == b[x + 1] && tb[y] == b[y + 1]);
    }
}

/// Two lists in listing order with the same members are the same list.
proof fn lemma_ordered_lists_with_same_members(a: Seq<Note>, b: Seq<Note>)
    requires
        in_listing_order(a),
        in_listing_order(b),
        same_members(a, b),
    ensures
        a.len() == b.len(),
        forall|i: int| 0 <= i < a.len() ==> a[i]@ == b[i]@,
    decreases a.len(),
{
    if a.len() == 0 {
        if b.len() > 0 {
            assert(listed_in(b[0]@, a));
        }
        return;
    }
    lemma_first_notes_agree(a, b);
    lemma_rests_have_same_members(a, b);
    let ta = a.drop_first();
    let tb = b.drop_first();
    lemma_ordered_lists_with_same_members(ta, tb);
    assert forall|i: int| 0 <= i < a.len() implies a[i]@ == b[i]@ by {
        if i > 0 {
            assert(ta[i - 1] == a[i] && tb[i - 1] == b[i]);
        }
    }
}

/// Law: the answer to a search is fully determined by the notes table and
/// the query: any two answers list the same notes in the same order.
pub proof fn law_search_answer_is_determined(
    table: Map<i64, NoteRecord>,
    query: Seq<char>,
    a: Seq<Note>,
    b: Seq<Note>,
)
    requires
        is_search_result(table, query, a),
        is_search_result(table, query, b),
    ensures
        a.len() == b.len(),
        forall|i: int| 0 <= i < a.len() ==> a[i]@ == b[i]@,
{
    assert forall|i: int| 0 <= i < a.len() implies listed_in(#[trigger] a[i]@, b) by {
        let k = a[i].id;
        assert(table.contains_key(k) && note_matches(table[k].0, query));
        let j = choose|j: int| 0 <= j < b.len() && #[trigger] b[j].id == k;
        assert(b[j]@ == a[i]@);
    }
    assert forall|j: int| 0 <= j < b.len() implies listed_in(#[trigger] b[j]@, a) by {
        let k = b[j].id;
        assert(table.contains_key(k) && note_matches(table[k].0, query));
        let i = choose|i: int| 0 <= i < a.len() && #[trigger] a[i].id == k;
        assert(b[j]@ == a[i]@);
    }
    lemma_ordered_lists_with_same_members(a, b);
}

/// Whether two characters are the same once ASCII case is ignored: equal,
/// or an ASCII capital and the small letter 32 code points above it.
pub open spec fn same_ignoring_ascii_case(x: char, y: char) -> bool {
    ||| x == y
    ||| 'A' <= x && x <= 'Z' && y as u32 == x as u32 + 32
    ||| 'A' <= y && y <= 'Z' && x as u32 == y as u32 + 32
}

/// Whether `query` stands in `body` from position `i` on, character for
/// character, ASCII case ignored.
pub open spec fn stands_at(body: Seq<char>, query: Seq<char>, i: int) -> bool {
    &&& 0 <= i
    &&& i + query.len() <= body.len()
    &&& forall|k: int| 0 <= k < query.len() ==> same_ignoring_ascii_case(body[i + k], #[trigger] query[k])
}

/// Whether `query` stands somewhere in `body`, ASCII case ignored.
pub open spec fn contains_ignoring_ascii_case(body: Seq<char>, query: Seq<char>) -> bool {
    exists|i: int| #[trigger] stands_at(body, query, i)
}

proof fn lemma_lowering_agrees(x: char, y: char)
    ensures
        (ascii_lower(x) == ascii_lower(y)) == same_ignoring_ascii_case(x, y),
{
}

proof fn lemma_answers_iff_contains(body: Seq<char>, query: Seq<char>)
    ensures
        note_matches(body, query) == contains_ignoring_ascii_case(body, query),
{
    let lb = ascii_lower_text(body);
    let lq = ascii_lower_text(query);
    let n = query.len();
    if note_matches(body, query) {
        let i = choose|i: int| 0 <= i && i + lq.len() <= lb.len() && #[trigger] lb.subrange(i, i + lq.len()) == lq;
        assert forall|k: int| 0 <= k < n implies same_ignoring_ascii_case(body[i + k], #[trigger] query[k]) by {
            assert(lb.subrange(i, i + n)[k] == lq[k]);
            lemma_lowering_agrees(body[i + k], query[k]);
        }
        assert(stands_at(body, query, i));
    }
    if contains_ignoring_ascii_case(body, query) {
        let i = choose|i: int| #[trigger] stands_at(body, query, i);
        assert forall|k: int| 0 <= k < n implies #[trigger] lb.subrange(i, i + n)[k] == lq[k] by {
            assert(same_ignoring_ascii_case(body[i + k], query[k]));
            lemma_lowering_agrees(body[i + k], query[k]);
        }
        assert(lb.subrange(i, i + lq.len()) =~= lq);
    }
}

/// Law: a search lists exactly the memos of the table whose body holds the
/// query (ASCII case ignored), each as the table keeps it; a memo whose body
/// does not hold the query is never listed.
pub proof fn law_search_lists_exactly_the_memos_holding_the_query(
    table: Map<i64, NoteRecord>,
    query: Seq<char>,
    out: Seq<Note>,
)
    requires
        is_search_result(table, query, out),
    ensures
        forall|a: int|
            0 <= a < out.len() ==> {
                &&& contains_ignoring_ascii_case(#[trigger] out[a].body@, query)
                &&& table.contains_key(out[a].id)
                &&& table[out[a].id] == (out[a].body@, out[a].created_at, out[a].updated_at)
            },
        forall|k: i64|
            table.contains_key(k) && contains_ignoring_ascii_case(table[k].0, query) ==> exists|a: int|
                0 <= a < out.len() && #[trigger] out[a].id == k,
{
    assert forall|a: int| 0 <= a < out.len() implies contains_ignoring_ascii_case(#[trigger] out[a].body@, query) by {
        assert(table.contains_key(out[a].id));
        lemma_answers_iff_contains(out[a].body@, query);
    }
    assert forall|k: i64| table.contains_key(k) && contains_ignoring_ascii_case(table[k].0, query) implies exists|a: int|
        0 <= a < out.len() && #[trigger] out[a].id == k by {
        lemma_answers_iff_contains(table[k].0, query);
    }
}

/// Law: a search lists memos newest created first: of two memos listed, the
/// first was created later, or at the same time with the larger id. The
/// update time plays no part.
pub proof fn law_search_lists_newest_created_first(
    table: Map<i64, NoteRecord>,
    query: Seq<char>,
    out: Seq<Note>,
)
    requires
        is_search_result(table, query, out),
    ensures
        forall|i: int, j: int|
            0 <= i < j < out.len() ==> #[trigger] out[i].created_at > #[trigger] out[j].created_at || (
            out[i].created_at == out[j].created_at && out[i].id > out[j].id),
{
    assert forall|i: int, j: int| 0 <= i < j < out.len() implies #[trigger] out[i].created_at
        > #[trigger] out[j].created_at || (out[i].created_at == out[j].created_at && out[i].id
        > out[j].id) by {
        assert(listed_before(out[i]@, out[j]@));
    }
}

/// Law: selecting from given rows lists exactly the rows whose body holds
/// the query (ASCII case ignored), each unchanged, newest created first (the
/// larger id first among rows created at the same time).
pub proof fn law_selection_lists_matching_rows_newest_first(
    rows: Seq<Note>,
    query: Seq<char>,
    out: Seq<Note>,
)
    requires
        lists_matching_rows(rows, query, out),
    ensures
        forall|a: int|
            0 <= a < out.len() ==> contains_ignoring_ascii_case(#[trigger] out[a].body@, query)
                && exists|j: int| 0 <= j < rows.len() && rows[j]@ == out[a]@,
        forall|j: int|
            0 <= j < rows.len() && contains_ignoring_ascii_case(#[trigger] rows[j].body@, query)
                ==> exists|a: int| 0 <= a < out.len() && out[a]@ == rows[j]@,
        forall|i: int, j: int|
            0 <= i < j < out.len() ==> #[trigger] out[i].created_at > #[trigger] out[j].created_at || (
            out[i].created_at == out[j].created_at && out[i].id > out[j].id),
{
    assert forall|a: int| 0 <= a < out.len() implies contains_ignoring_ascii_case(#[trigger] out[a].body@, query)
        && exists|j: int| 0 <= j < rows.len() && rows[j]@ == out[a]@ by {
        assert(note_matches(out[a].body@, query));
        lemma_answers_iff_contains(out[a].body@, query);
    }
    assert forall|j: int| 0 <= j < rows.len() && contains_ignoring_ascii_case(#[trigger] rows[j].body@, query)
        implies exists|a: int| 0 <= a < out.len() && out[a]@ == rows[j]@ by {
        lemma_answers_iff_contains(rows[j].body@, query);
    }
    assert forall|i: int, j: int| 0 <= i < j < out.len() implies #[trigger] out[i].created_at
        > #[trigger] out[j].created_at || (out[i].created_at == out[j].created_at && out[i].id
        > out[j].id) by {
        assert(listed_before(out[i]@, out[j]@));
    }
}

} // verus!
