//! The service's laws, stated over the same models that the operations'
//! contracts use, and proved once for all inputs.

use vstd::prelude::*;

use crate::builder::eq_item;
use crate::builder::eq_list;
use crate::builder::ph_list;
use crate::builder::placeholder;
use crate::builder::update_sql;
use crate::parsers::uuid_parse;
use crate::service::children_of;
use crate::service::created_row;
use crate::service::has_id;
use crate::service::row_at;
use crate::service::update_set_args;
use crate::service::update_set_cols;
use crate::service::updated_row;
use crate::service::wf_rows;
use crate::service::without_id;
use crate::text::trimmed;
use crate::view::CreateViewParams;
use crate::view::RowV;
use crate::view::UpdateViewParams;

verus! {

/// `needle` occurs in `hay` as one contiguous run.
pub open spec fn contains_seq(hay: Seq<char>, needle: Seq<char>) -> bool {
    exists|o: int|
        0 <= o && o + needle.len() <= hay.len() && #[trigger] hay.subrange(o, o + needle.len())
            == needle
}

proof fn lemma_contains_self(a: Seq<char>)
    ensures
        contains_seq(a, a),
{
    let o: int = 0;
    assert(a.subrange(o, o + a.len()) =~= a);
}

proof fn lemma_contains_left(a: Seq<char>, b: Seq<char>, x: Seq<char>)
    requires
        contains_seq(a, x),
    ensures
        contains_seq(a + b, x),
{
    let o = choose|o: int|
        0 <= o && o + x.len() <= a.len() && #[trigger] a.subrange(o, o + x.len()) == x;
    assert((a + b).subrange(o, o + x.len()) =~= a.subrange(o, o + x.len()));
    assert((a + b).subrange(o, o + x.len()) == x);
}

proof fn lemma_contains_right(a: Seq<char>, b: Seq<char>, x: Seq<char>)
    requires
        contains_seq(b, x),
    ensures
        contains_seq(a + b, x),
{
    let o = choose|o: int|
        0 <= o && o + x.len() <= b.len() && #[trigger] b.subrange(o, o + x.len()) == x;
    let p = a.len() + o;
    assert((a + b).subrange(p, p + x.len()) =~= b.subrange(o, o + x.len()));
    assert((a + b).subrange(p, p + x.len()) == x);
}

/// In an equality list starting at `start`, the item at position `i` is
/// rendered with the placeholder numbered `start + i`: numbering is
/// contiguous however the list was assembled.
pub proof fn lemma_eq_list_numbering(cols: Seq<Seq<char>>, start: nat, sep: Seq<char>, i: int)
    requires
        0 <= i < cols.len(),
    ensures
        contains_seq(eq_list(cols, start, sep), eq_item(cols[i], (start + i) as nat)),
    decreases cols.len(),
{
    let item = eq_item(cols[i], (start + i) as nat);
    if cols.len() == 1 {
        lemma_contains_self(item);
    } else if i == cols.len() - 1 {
        let prefix = eq_list(cols.drop_last(), start, sep) + sep;
        assert(cols.last() == cols[i]);
        assert((start + cols.len() - 1) as nat == (start + i) as nat);
        lemma_contains_self(item);
        lemma_contains_right(prefix, item, item);
        assert(eq_list(cols, start, sep) == prefix + item);
    } else {
        lemma_eq_list_numbering(cols.drop_last(), start, sep, i);
        assert(cols.drop_last()[i] == cols[i]);
        let rest = eq_list(cols.drop_last(), start, sep);
        let last_item = eq_item(cols.last(), (start + cols.len() - 1) as nat);
        lemma_contains_left(rest, sep, item);
        lemma_contains_left(rest + sep, last_item, item);
        assert(eq_list(cols, start, sep) == (rest + sep) + last_item);
    }
}

/// In a placeholder list of length `n`, every placeholder `$k` with
/// `1 <= k <= n` occurs.
pub proof fn lemma_ph_list_numbering(n: nat, k: nat)
    requires
        1 <= k <= n,
    ensures
        contains_seq(ph_list(n), placeholder(k)),
    decreases n,
{
    if n == 1 {
        lemma_contains_self(placeholder(1));
    } else if k == n {
        lemma_contains_self(placeholder(k));
        lemma_contains_right(ph_list((n - 1) as nat) + ", "@, placeholder(k), placeholder(k));
        assert(ph_list(n) == (ph_list((n - 1) as nat) + ", "@) + placeholder(n));
    } else {
        lemma_ph_list_numbering((n - 1) as nat, k);
        lemma_contains_left(ph_list((n - 1) as nat), ", "@, placeholder(k));
        lemma_contains_left(ph_list((n - 1) as nat) + ", "@, placeholder(n), placeholder(k));
        assert(ph_list(n) == (ph_list((n - 1) as nat) + ", "@) + placeholder(n));
    }
}

/// Law (builder round trip): for an update carrying any subset of the
/// optional fields, the `SET` columns and arguments have the same length
/// N+K, the rendered text carries for the item at position `i` the
/// equality with placeholder `i + 1`, and the `WHERE` equality continues
/// at N+K+1 — skipping optional contributions never corrupts the
/// numbering.
pub proof fn lemma_update_round_trip(p: UpdateViewParams, now: i64)
    ensures
        update_set_cols(p).len() == update_set_args(p, now).len(),
        forall|i: int|
            0 <= i < update_set_cols(p).len() ==> contains_seq(
                update_sql("view_table"@, update_set_cols(p), seq!["id"@]),
                eq_item(update_set_cols(p)[i], (i + 1) as nat),
            ),
        contains_seq(
            update_sql("view_table"@, update_set_cols(p), seq!["id"@]),
            eq_item("id"@, (update_set_cols(p).len() + 1) as nat),
        ),
{
    let cols = update_set_cols(p);
    let conds = seq!["id"@];
    let sql = update_sql("view_table"@, cols, conds);
    let base = "UPDATE "@ + "view_table"@ + " SET "@ + eq_list(cols, 1, ", "@);
    let where_list = eq_list(conds, (cols.len() + 1) as nat, " AND "@);
    assert(conds.len() == 1);
    assert(sql == (base + " WHERE "@) + where_list);
    assert(where_list == eq_item("id"@, (cols.len() + 1) as nat));
    assert forall|i: int| 0 <= i < cols.len() implies contains_seq(
        sql,
        eq_item(cols[i], (i + 1) as nat),
    ) by {
        lemma_eq_list_numbering(cols, 1, ", "@, i);
        let item = eq_item(cols[i], (i + 1) as nat);
        assert((1 + i) as nat == (i + 1) as nat);
        lemma_contains_right("UPDATE "@ + "view_table"@ + " SET "@, eq_list(cols, 1, ", "@), item);
        assert(base == ("UPDATE "@ + "view_table"@ + " SET "@) + eq_list(cols, 1, ", "@));
        lemma_contains_left(base, " WHERE "@, item);
        lemma_contains_left(base + " WHERE "@, where_list, item);
    }
    lemma_contains_self(where_list);
    lemma_contains_right(base + " WHERE "@, where_list, where_list);
}

/// Law (create then read): the identifier of a freshly created view is
/// unique across all prior rows, and a read keyed by that identifier —
/// whose canonical form is itself — finds exactly the created row, so the
/// view a subsequent read returns equals the created one in every stored
/// field (belongings are populated separately).
pub proof fn lemma_create_then_read(rows: Seq<RowV>, p: CreateViewParams, id: Seq<char>, now: i64)
    requires
        wf_rows(rows),
        !has_id(rows, id),
        uuid_parse(id) == Some(id),
    ensures
        wf_rows(rows.push(created_row(p, id, now))),
        forall|i: int| 0 <= i < rows.len() ==> (#[trigger] rows[i]).id != id,
        has_id(rows.push(created_row(p, id, now)), uuid_parse(id).unwrap()),
        row_at(rows.push(created_row(p, id, now)), uuid_parse(id).unwrap()) == created_row(
            p,
            id,
            now,
        ),
{
    let row = created_row(p, id, now);
    let rows2 = rows.push(row);
    assert forall|i: int| 0 <= i < rows.len() implies (#[trigger] rows[i]).id != id by {
        if rows[i].id == id {
            assert(has_id(rows, id));
        }
    }
    assert forall|i: int, j: int| 0 <= i < j < rows2.len() implies rows2[i].id != rows2[j].id by {
        if j == rows2.len() - 1 {
            assert(rows2[i] == rows[i]);
        }
    }
    assert(rows2[rows.len() as int].id == id);
    assert(has_id(rows2, id));
    let k = choose|k: int| 0 <= k < rows2.len() && rows2[k].id == id;
    if k < rows.len() {
        assert(rows[k].id == id);
        assert(false);
    }
    assert(row_at(rows2, id) == row);
}

/// Law (partial update): an update changes exactly the supplied fields to
/// exactly their parsed values; unsupplied fields keep their stored
/// values, the immutable fields never change, and when the clock has
/// moved past the stored modified time the modified time strictly
/// increases. (A clock reading at or before the stored time is the one
/// input on which the strict increase fails, so it is assumed away.)
pub proof fn lemma_update_partial(row: RowV, p: UpdateViewParams, now: i64)
    requires
        now > row.modified_time,
    ensures
        updated_row(row, p, now).modified_time > row.modified_time,
        p.name is None ==> updated_row(row, p, now).name == row.name,
        p.name is Some ==> updated_row(row, p, now).name == trimmed(p.name.unwrap()@),
        p.desc is None ==> updated_row(row, p, now).description == row.description,
        p.desc is Some ==> updated_row(row, p, now).description == trimmed(p.desc.unwrap()@),
        p.thumbnail is None ==> updated_row(row, p, now).thumbnail == row.thumbnail,
        p.thumbnail is Some ==> updated_row(row, p, now).thumbnail == trimmed(
            p.thumbnail.unwrap()@,
        ),
        p.is_trash is None ==> updated_row(row, p, now).is_trash == row.is_trash,
        p.is_trash is Some ==> updated_row(row, p, now).is_trash == p.is_trash.unwrap(),
        updated_row(row, p, now).id == row.id,
        updated_row(row, p, now).belong_to_id == row.belong_to_id,
        updated_row(row, p, now).create_time == row.create_time,
        updated_row(row, p, now).view_type == row.view_type,
{
}

proof fn lemma_without_id_no_id(rows: Seq<RowV>, id: Seq<char>)
    ensures
        forall|k: int|
            0 <= k < without_id(rows, id).len() ==> (#[trigger] without_id(rows, id)[k]).id != id,
    decreases rows.len(),
{
    if rows.len() == 0 {
    } else {
        lemma_without_id_no_id(rows.drop_last(), id);
        let rest = without_id(rows.drop_last(), id);
        assert forall|k: int| 0 <= k < without_id(rows, id).len() implies (#[trigger] without_id(
            rows,
            id,
        )[k]).id != id by {
            if rows.last().id == id {
                assert(without_id(rows, id)[k] == rest[k]);
            } else {
                if k < rest.len() {
                    assert(without_id(rows, id)[k] == rest[k]);
                } else {
                    assert(without_id(rows, id)[k] == rows.last());
                }
            }
        }
    }
}

proof fn lemma_without_id_clean(rows: Seq<RowV>, id: Seq<char>)
    requires
        forall|k: int| 0 <= k < rows.len() ==> (#[trigger] rows[k]).id != id,
    ensures
        without_id(rows, id) == rows,
    decreases rows.len(),
{
    if rows.len() == 0 {
        assert(without_id(rows, id) =~= rows);
    } else {
        assert forall|k: int| 0 <= k < rows.drop_last().len() implies (#[trigger] rows.drop_last(
        )[k]).id != id by {
            assert(rows.drop_last()[k] == rows[k]);
        }
        lemma_without_id_clean(rows.drop_last(), id);
        assert(rows[rows.len() - 1].id != id);
        assert(without_id(rows, id) =~= rows);
    }
}

/// Law (idempotent delete): removing an identifier from a table it no
/// longer occurs in changes nothing, so two deletes in succession leave
/// exactly the table the first one left — and both report success.
pub proof fn lemma_delete_idempotent(rows: Seq<RowV>, id: Seq<char>)
    ensures
        without_id(without_id(rows, id), id) == without_id(rows, id),
{
    lemma_without_id_no_id(rows, id);
    lemma_without_id_clean(without_id(rows, id), id);
}

/// Law (hierarchical read is exact): every child returned is owned by `x`,
/// and every stored row owned by `x` is returned.
pub proof fn lemma_children_exact(rows: Seq<RowV>, x: Seq<char>)
    ensures
        forall|k: int|
            0 <= k < children_of(rows, x).len() ==> (#[trigger] children_of(
                rows,
                x,
            )[k]).belong_to_id == x,
        forall|j: int|
            0 <= j < rows.len() && (#[trigger] rows[j]).belong_to_id == x ==> children_of(
                rows,
                x,
            ).contains(rows[j]),
    decreases rows.len(),
{
    if rows.len() == 0 {
    } else {
        lemma_children_exact(rows.drop_last(), x);
        let rest = children_of(rows.drop_last(), x);
        let all = children_of(rows, x);
        assert forall|k: int| 0 <= k < all.len() implies (#[trigger] all[k]).belong_to_id
            == x by {
            if rows.last().belong_to_id == x {
                if k < rest.len() {
                    assert(all[k] == rest[k]);
                } else {
                    assert(all[k] == rows.last());
                }
            } else {
                assert(all[k] == rest[k]);
            }
        }
        assert forall|j: int|
            0 <= j < rows.len() && (#[trigger] rows[j]).belong_to_id == x implies all.contains(
            rows[j],
        ) by {
            if j < rows.len() - 1 {
                assert(rows.drop_last()[j] == rows[j]);
                assert(rest.contains(rows[j]));
                let w = choose|w: int| 0 <= w < rest.len() && rest[w] == rows[j];
                assert(all[w] == rows[j]);
            } else {
                assert(rows.last() == rows[j]);
                assert(all[all.len() - 1] == rows[j]);
            }
        }
    }
}

/// Law (hierarchical read independence): a row owned by a different
/// parent never changes what a hierarchical read of `x` returns, however
/// many unrelated rows exist.
pub proof fn lemma_children_unrelated(rows: Seq<RowV>, row: RowV, x: Seq<char>)
    requires
        row.belong_to_id != x,
    ensures
        children_of(rows.push(row), x) == children_of(rows, x),
{
    assert(rows.push(row).drop_last() =~= rows);
    assert(rows.push(row).last() == row);
}

} // verus!
