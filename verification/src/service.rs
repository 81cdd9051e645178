//! The view CRUD service: validated-input-to-transaction pipeline over an
//! in-memory model of the view table, plus the statement-assembly half that
//! a relational backend executes.
//!
//! Every operation validates all raw input first, then performs its whole
//! effect or none of it: on any failure the table is left exactly as it was
//! (the model of rollback-on-early-exit). The statement functions produce
//! the SQL text and ordered argument list that the same operation sends to a
//! SQL backend; the store methods give those statements their semantics.

use vstd::prelude::*;

use crate::builder::arg_views;
use crate::builder::delete_sql;
use crate::builder::insert_sql;
use crate::builder::names_of;
use crate::builder::select_sql;
use crate::builder::update_sql;
use crate::builder::values_of;
use crate::builder::SqlBuilder;
use crate::builder::SqlValue;
use crate::builder::SqlValueV;
use crate::errors::ErrorCode;
use crate::errors::ServerError;
use crate::parsers::check_view_id;
use crate::parsers::desc_ok;
use crate::parsers::name_ok;
use crate::parsers::new_view_id;
use crate::parsers::parse_identifier;
use crate::parsers::parse_view_desc;
use crate::parsers::parse_view_name;
use crate::parsers::parse_view_thumbnail;
use crate::parsers::thumbnail_ok;
use crate::parsers::uuid_parse;
use crate::text::trimmed;
use crate::view::data_matches_row;
use crate::view::datas_match_rows;
use crate::view::view_from_row;
use crate::view::CreateViewParams;
use crate::view::QueryViewParams;
use crate::view::RowV;
use crate::view::UpdateViewParams;
use crate::view::ViewData;
use crate::view::ViewRow;

verus! {

/// Relies on `chrono::Utc::now` and `timestamp_millis` for the wall clock;
/// nothing is promised of the reading.
#[verifier::external_body]
pub(crate) fn now_millis() -> i64 {
    chrono::Utc::now().timestamp_millis()
}

/// The models of the stored rows, in storage order.
pub open spec fn rows_views(rows: Seq<ViewRow>) -> Seq<RowV> {
    rows.map_values(|r: ViewRow| r@)
}

/// Identifiers are pairwise distinct.
pub open spec fn wf_rows(rows: Seq<RowV>) -> bool {
    forall|i: int, j: int| 0 <= i < j < rows.len() ==> rows[i].id != rows[j].id
}

/// Some row carries the identifier.
pub open spec fn has_id(rows: Seq<RowV>, id: Seq<char>) -> bool {
    exists|i: int| 0 <= i < rows.len() && rows[i].id == id
}

/// The row carrying the identifier (meaningful under `wf_rows` when
/// `has_id` holds).
pub open spec fn row_at(rows: Seq<RowV>, id: Seq<char>) -> RowV {
    rows[choose|i: int| 0 <= i < rows.len() && rows[i].id == id]
}

/// The rows whose `belong_to_id` equals `id`, in storage order.
pub open spec fn children_of(rows: Seq<RowV>, id: Seq<char>) -> Seq<RowV>
    decreases rows.len(),
{
    if rows.len() == 0 {
        Seq::empty()
    } else {
        let rest = children_of(rows.drop_last(), id);
        if rows.last().belong_to_id == id {
            rest.push(rows.last())
        } else {
            rest
        }
    }
}

/// The rows whose identifier differs from `id`, in storage order.
pub open spec fn without_id(rows: Seq<RowV>, id: Seq<char>) -> Seq<RowV>
    decreases rows.len(),
{
    if rows.len() == 0 {
        Seq::empty()
    } else {
        let rest = without_id(rows.drop_last(), id);
        if rows.last().id == id {
            rest
        } else {
            rest.push(rows.last())
        }
    }
}

/// All create-request fields pass their parsers.
pub open spec fn create_params_ok(p: CreateViewParams) -> bool {
    &&& name_ok(p.name@)
    &&& uuid_parse(p.belong_to_id@) is Some
    &&& thumbnail_ok(p.thumbnail@)
    &&& desc_ok(p.desc@)
}

/// The field cited when create validation fails: the first failure in
/// parse order (name, belong_to_id, thumbnail, desc).
pub open spec fn create_error_field(p: CreateViewParams) -> Seq<char> {
    if !name_ok(p.name@) {
        "name"@
    } else if uuid_parse(p.belong_to_id@) is None {
        "belong_to_id"@
    } else if !thumbnail_ok(p.thumbnail@) {
        "thumbnail"@
    } else {
        "desc"@
    }
}

/// The row a successful create stores: both timestamps set to `now`, the
/// trash flag clear.
pub open spec fn created_row(p: CreateViewParams, id: Seq<char>, now: i64) -> RowV {
    RowV {
        id: id,
        belong_to_id: uuid_parse(p.belong_to_id@).unwrap(),
        name: trimmed(p.name@),
        description: trimmed(p.desc@),
        modified_time: now,
        create_time: now,
        thumbnail: trimmed(p.thumbnail@),
        view_type: p.view_type,
        is_trash: false,
    }
}

/// The identifier and every supplied optional field pass their parsers.
pub open spec fn update_params_ok(p: UpdateViewParams) -> bool {
    &&& uuid_parse(p.view_id@) is Some
    &&& (p.name is Some ==> name_ok(p.name.unwrap()@))
    &&& (p.desc is Some ==> desc_ok(p.desc.unwrap()@))
    &&& (p.thumbnail is Some ==> thumbnail_ok(p.thumbnail.unwrap()@))
}

/// The field cited when update validation fails: the first failure in
/// parse order (view_id, name, desc, thumbnail).
pub open spec fn update_error_field(p: UpdateViewParams) -> Seq<char> {
    if uuid_parse(p.view_id@) is None {
        "view_id"@
    } else if p.name is Some && !name_ok(p.name.unwrap()@) {
        "name"@
    } else if p.desc is Some && !desc_ok(p.desc.unwrap()@) {
        "desc"@
    } else {
        "thumbnail"@
    }
}

/// The row after an update: supplied fields replaced by their parsed
/// values, `modified_time` always advanced to `now`, `is_trash` written
/// only when the request carries it, everything else kept.
pub open spec fn updated_row(row: RowV, p: UpdateViewParams, now: i64) -> RowV {
    RowV {
        id: row.id,
        belong_to_id: row.belong_to_id,
        name: if p.name is Some {
            trimmed(p.name.unwrap()@)
        } else {
            row.name
        },
        description: if p.desc is Some {
            trimmed(p.desc.unwrap()@)
        } else {
            row.description
        },
        modified_time: now,
        create_time: row.create_time,
        thumbnail: if p.thumbnail is Some {
            trimmed(p.thumbnail.unwrap()@)
        } else {
            row.thumbnail
        },
        view_type: row.view_type,
        is_trash: if p.is_trash is Some {
            p.is_trash.unwrap()
        } else {
            row.is_trash
        },
    }
}

fn index_of_id(rows: &Vec<ViewRow>, id: &String) -> (r: Option<usize>)
    ensures
        r is Some ==> r.unwrap() < rows@.len() && rows@[r.unwrap() as int]@.id == id@,
        r is None ==> !has_id(rows_views(rows@), id@),
{
    let mut i: usize = 0;
    while i < rows.len()
        invariant
            i <= rows@.len(),
            forall|j: int| 0 <= j < i ==> rows@[j]@.id != id@,
        decreases rows@.len() - i,
    {
        if rows[i].id == *id {
            return Some(i);
        }
        i = i + 1;
    }
    proof {
        assert forall|j: int| 0 <= j < rows_views(rows@).len() implies rows_views(rows@)[j].id
            != id@ by {
            assert(rows_views(rows@)[j] == rows@[j]@);
        }
    }
    None
}

/// The in-memory model of the view table: the reference semantics that the
/// built statements have when a backend executes them.
pub struct ViewStore {
    pub rows: Vec<ViewRow>,
}

impl ViewStore {
    /// The models of the stored rows.
    pub open spec fn rows_v(self) -> Seq<RowV> {
        rows_views(self.rows@)
    }

    /// Well-formed: identifiers are pairwise distinct (the unique key).
    pub open spec fn wf(self) -> bool {
        wf_rows(self.rows_v())
    }

    /// An empty table.
    pub fn new() -> (r: ViewStore)
        ensures
            r.rows_v() == Seq::<RowV>::empty(),
            r.wf(),
    {
        let r = ViewStore { rows: Vec::new() };
        proof {
            assert(r.rows_v() =~= Seq::<RowV>::empty());
        }
        r
    }

    /// Create with an explicit fresh identifier and timestamp: validates
    /// every field (rejecting on the first failure, before any effect),
    /// then stores the new row; a duplicate identifier is the model of a
    /// unique-key constraint violation and reports an infrastructure
    /// failure with the table unchanged.
    pub fn create_view_at(
        &mut self,
        params: &CreateViewParams,
        new_id: String,
        now: i64,
    ) -> (r: Result<ViewData, ServerError>)
        requires
            old(self).wf(),
        ensures
            final(self).wf(),
            r is Ok <==> create_params_ok(*params) && !has_id(old(self).rows_v(), new_id@),
            r is Err ==> final(self).rows_v() == old(self).rows_v(),
            !create_params_ok(*params) ==> r is Err && r->Err_0.code == ErrorCode::ValidationError
                && r->Err_0.field@ == create_error_field(*params),
            create_params_ok(*params) && has_id(old(self).rows_v(), new_id@) ==> r is Err
                && r->Err_0.code == ErrorCode::InfraError,
            r is Ok ==> final(self).rows_v() == old(self).rows_v().push(
                created_row(*params, new_id@, now),
            ),
            r is Ok ==> data_matches_row(r->Ok_0, created_row(*params, new_id@, now)),
    {
        let name = match parse_view_name(params.name.as_str()) {
            Ok(v) => v,
            Err(e) => {
                return Err(e);
            },
        };
        let belong_to_id = match parse_identifier("belong_to_id", params.belong_to_id.as_str()) {
            Ok(v) => v,
            Err(e) => {
                return Err(e);
            },
        };
        let thumbnail = match parse_view_thumbnail(params.thumbnail.as_str()) {
            Ok(v) => v,
            Err(e) => {
                return Err(e);
            },
        };
        let description = match parse_view_desc(params.desc.as_str()) {
            Ok(v) => v,
            Err(e) => {
                return Err(e);
            },
        };
        match index_of_id(&self.rows, &new_id) {
            Some(i) => {
                proof {
                    assert(self.rows_v()[i as int] == self.rows@[i as int]@);
                    assert(has_id(old(self).rows_v(), new_id@));
                }
                Err(ServerError::infra())
            },
            None => {
                let row = ViewRow {
                    id: new_id,
                    belong_to_id,
                    name,
                    description,
                    modified_time: now,
                    create_time: now,
                    thumbnail,
                    view_type: params.view_type,
                    is_trash: false,
                };
                let data = view_from_row(&row, Vec::new());
                let ghost old_rows = self.rows_v();
                self.rows.push(row);
                proof {
                    assert(row@ == created_row(*params, new_id@, now));
                    assert(self.rows_v() =~= old_rows.push(row@));
                    assert forall|i: int, j: int|
                        0 <= i < j < self.rows_v().len() implies self.rows_v()[i].id
                        != self.rows_v()[j].id by {
                        if j < old_rows.len() {
                        } else {
                            if self.rows_v()[i].id == new_id@ {
                                assert(old_rows[i].id == new_id@);
                                assert(has_id(old_rows, new_id@));
                            }
                        }
                    }
                }
                Ok(data)
            },
        }
    }

    /// Create: generates a fresh identifier and reads the clock, then
    /// proceeds as `create_view_at`. Whatever identifier and time came
    /// back, on success the new row is appended, its identifier is in
    /// canonical form and was not stored before, and the returned view
    /// carries the parsed fields, version zero and no belongings.
    pub fn create_view(&mut self, params: &CreateViewParams) -> (r: Result<ViewData, ServerError>)
        requires
            old(self).wf(),
        ensures
            final(self).wf(),
            r is Err ==> final(self).rows_v() == old(self).rows_v(),
            !create_params_ok(*params) ==> r is Err && r->Err_0.code == ErrorCode::ValidationError
                && r->Err_0.field@ == create_error_field(*params),
            create_params_ok(*params) && r is Err ==> r->Err_0.code == ErrorCode::InfraError,
            r is Ok ==> final(self).rows_v().len() == old(self).rows_v().len() + 1
                && final(self).rows_v().take(old(self).rows_v().len() as int) == old(self).rows_v()
                && final(self).rows_v().last() == created_row(
                *params,
                r->Ok_0.id@,
                final(self).rows_v().last().modified_time,
            ) && uuid_parse(r->Ok_0.id@) == Some(r->Ok_0.id@) && !has_id(
                old(self).rows_v(),
                r->Ok_0.id@,
            ) && data_matches_row(r->Ok_0, final(self).rows_v().last()),
    {
        let id = new_view_id();
        let now = now_millis();
        let r = self.create_view_at(params, id, now);
        proof {
            if r is Ok {
                assert(self.rows_v().take(old(self).rows_v().len() as int) =~= old(self).rows_v());
            }
        }
        r
    }

    /// Hierarchical read of the children of `id`: exactly the stored rows
    /// whose `belong_to_id` equals `id`, in storage order, each with empty
    /// belongings (one level deep only).
    pub fn read_views_belong_to_id(&self, id: &String) -> (r: Vec<ViewData>)
        ensures
            datas_match_rows(r@, children_of(self.rows_v(), id@)),
    {
        let mut out: Vec<ViewData> = Vec::new();
        let mut i: usize = 0;
        proof {
            assert(self.rows_v().take(0) =~= Seq::<RowV>::empty());
        }
        while i < self.rows.len()
            invariant
                i <= self.rows@.len(),
                self.rows_v().len() == self.rows@.len(),
                datas_match_rows(out@, children_of(self.rows_v().take(i as int), id@)),
            decreases self.rows@.len() - i,
        {
            let ghost pre = children_of(self.rows_v().take(i as int), id@);
            proof {
                assert(self.rows_v().take(i + 1).drop_last() =~= self.rows_v().take(i as int));
                assert(self.rows_v().take(i + 1).last() == self.rows_v()[i as int]);
                assert(self.rows_v()[i as int] == self.rows@[i as int]@);
            }
            let row = &self.rows[i];
            if row.belong_to_id == *id {
                out.push(view_from_row(row, Vec::new()));
                proof {
                    assert(children_of(self.rows_v().take(i + 1), id@) == pre.push(
                        self.rows_v()[i as int],
                    ));
                }
            } else {
                proof {
                    assert(children_of(self.rows_v().take(i + 1), id@) == pre);
                }
            }
            i = i + 1;
        }
        proof {
            assert(self.rows_v().take(self.rows@.len() as int) =~= self.rows_v());
        }
        out
    }

    /// Read by identifier: a malformed identifier is a validation failure;
    /// zero matching rows is "not found"; otherwise the stored row is
    /// returned, with its children populated exactly when the caller asked
    /// for them.
    pub fn read_view(&self, params: &QueryViewParams) -> (r: Result<ViewData, ServerError>)
        requires
            self.wf(),
        ensures
            r is Ok <==> uuid_parse(params.view_id@) is Some && has_id(
                self.rows_v(),
                uuid_parse(params.view_id@).unwrap(),
            ),
            uuid_parse(params.view_id@) is None ==> r is Err && r->Err_0.code
                == ErrorCode::ValidationError && r->Err_0.field@ == "view_id"@,
            uuid_parse(params.view_id@) is Some && !has_id(
                self.rows_v(),
                uuid_parse(params.view_id@).unwrap(),
            ) ==> r is Err && r->Err_0.code == ErrorCode::NotFound,
            r is Ok ==> ({
                let key = uuid_parse(params.view_id@).unwrap();
                let row = row_at(self.rows_v(), key);
                let d = r->Ok_0;
                &&& d.id@ == row.id
                &&& d.belong_to_id@ == row.belong_to_id
                &&& d.name@ == row.name
                &&& d.desc@ == row.description
                &&& d.view_type == row.view_type
                &&& d.version == 0
                &&& (params.read_belongings ==> datas_match_rows(
                    d.belongings@,
                    children_of(self.rows_v(), key),
                ))
                &&& (!params.read_belongings ==> d.belongings@.len() == 0)
            }),
    {
        let key = match check_view_id(params.view_id.as_str()) {
            Ok(k) => k,
            Err(e) => {
                return Err(e);
            },
        };
        match index_of_id(&self.rows, &key) {
            None => Err(ServerError::not_found()),
            Some(i) => {
                proof {
                    assert(has_id(self.rows_v(), key@)) by {
                        assert(self.rows_v()[i as int] == self.rows@[i as int]@);
                    }
                    let k = choose|k: int|
                        0 <= k < self.rows_v().len() && self.rows_v()[k].id == key@;
                    assert(self.rows_v()[i as int].id == key@);
                    assert(row_at(self.rows_v(), key@) == self.rows_v()[i as int]);
                }
                let belongings: Vec<ViewData> = if params.read_belongings {
                    let row_id = self.rows[i].id.clone();
                    self.read_views_belong_to_id(&row_id)
                } else {
                    Vec::new()
                };
                let row = &self.rows[i];
                Ok(view_from_row(row, belongings))
            },
        }
    }

    /// Update with an explicit timestamp: validates the identifier and
    /// every supplied optional field first (rejecting before any effect);
    /// then rewrites the matching row as `updated_row` says, leaving every
    /// other row untouched. Zero matching rows is still success: the
    /// statement simply affected nothing.
    pub fn update_view_at(&mut self, params: &UpdateViewParams, now: i64) -> (r: Result<
        (),
        ServerError,
    >)
        requires
            old(self).wf(),
        ensures
            final(self).wf(),
            r is Ok <==> update_params_ok(*params),
            r is Err ==> final(self).rows_v() == old(self).rows_v() && r->Err_0.code
                == ErrorCode::ValidationError && r->Err_0.field@ == update_error_field(*params),
            r is Ok ==> ({
                let key = uuid_parse(params.view_id@).unwrap();
                let rv = old(self).rows_v();
                &&& final(self).rows_v().len() == rv.len()
                &&& (forall|i: int|
                    0 <= i < rv.len() && rv[i].id != key ==> final(self).rows_v()[i] == rv[i])
                &&& (forall|i: int|
                    0 <= i < rv.len() && rv[i].id == key ==> final(self).rows_v()[i]
                        == updated_row(rv[i], *params, now))
            }),
    {
        let key = match check_view_id(params.view_id.as_str()) {
            Ok(k) => k,
            Err(e) => {
                return Err(e);
            },
        };
        let name = match &params.name {
            None => None,
            Some(s) => match parse_view_name(s.as_str()) {
                Ok(v) => Some(v),
                Err(e) => {
                    return Err(e);
                },
            },
        };
        let desc = match &params.desc {
            None => None,
            Some(s) => match parse_view_desc(s.as_str()) {
                Ok(v) => Some(v),
                Err(e) => {
                    return Err(e);
                },
            },
        };
        let thumbnail = match &params.thumbnail {
            None => None,
            Some(s) => match parse_view_thumbnail(s.as_str()) {
                Ok(v) => Some(v),
                Err(e) => {
                    return Err(e);
                },
            },
        };
        match index_of_id(&self.rows, &key) {
            None => {
                proof {
                    assert forall|i: int|
                        0 <= i < old(self).rows_v().len() && old(self).rows_v()[i].id
                            != uuid_parse(params.view_id@).unwrap() implies self.rows_v()[i] == old(
                        self,
                    ).rows_v()[i] by {}
                }
                Ok(())
            },
            Some(i) => {
                let ghost rv = self.rows_v();
                let mut row = self.rows.remove(i);
                if let Some(v) = name {
                    row.name = v;
                }
                if let Some(v) = desc {
                    row.description = v;
                }
                if let Some(v) = thumbnail {
                    row.thumbnail = v;
                }
                row.modified_time = now;
                if let Some(b) = params.is_trash {
                    row.is_trash = b;
                }
                let ghost new_row = row@;
                self.rows.insert(i, row);
                proof {
                    assert(self.rows@ =~= old(self).rows@.update(i as int, self.rows@[i as int]));
                    assert(self.rows_v() =~= rv.update(i as int, new_row));
                    assert(new_row == updated_row(rv[i as int], *params, now));
                    let key_v = uuid_parse(params.view_id@).unwrap();
                    assert(rv[i as int].id == key_v);
                    assert forall|j: int|
                        0 <= j < rv.len() && rv[j].id == key_v implies self.rows_v()[j]
                        == updated_row(rv[j], *params, now) by {
                        if j != i {
                            assert(rv[i as int].id == rv[j].id);
                            assert(false);
                        }
                    }
                    assert forall|a: int, b: int|
                        0 <= a < b < self.rows_v().len() implies self.rows_v()[a].id
                        != self.rows_v()[b].id by {
                        assert(self.rows_v()[a].id == rv[a].id);
                        assert(self.rows_v()[b].id == rv[b].id);
                    }
                }
                Ok(())
            },
        }
    }

    /// Update: reads the clock, then proceeds as `update_view_at`. The
    /// supplied fields change to their parsed values, unsupplied fields and
    /// every other row stay as they were; only the modified time depends on
    /// the clock reading.
    pub fn update_view(&mut self, params: &UpdateViewParams) -> (r: Result<(), ServerError>)
        requires
            old(self).wf(),
        ensures
            final(self).wf(),
            r is Ok <==> update_params_ok(*params),
            r is Err ==> final(self).rows_v() == old(self).rows_v() && r->Err_0.code
                == ErrorCode::ValidationError && r->Err_0.field@ == update_error_field(*params),
            r is Ok ==> ({
                let key = uuid_parse(params.view_id@).unwrap();
                let rv = old(self).rows_v();
                &&& final(self).rows_v().len() == rv.len()
                &&& (forall|i: int|
                    0 <= i < rv.len() && rv[i].id != key ==> final(self).rows_v()[i] == rv[i])
                &&& (forall|i: int|
                    0 <= i < rv.len() && rv[i].id == key ==> ({
                        let n = final(self).rows_v()[i];
                        &&& n.id == rv[i].id
                        &&& n.belong_to_id == rv[i].belong_to_id
                        &&& n.create_time == rv[i].create_time
                        &&& n.view_type == rv[i].view_type
                        &&& n.name == (if params.name is Some {
                            trimmed(params.name.unwrap()@)
                        } else {
                            rv[i].name
                        })
                        &&& n.description == (if params.desc is Some {
                            trimmed(params.desc.unwrap()@)
                        } else {
                            rv[i].description
                        })
                        &&& n.thumbnail == (if params.thumbnail is Some {
                            trimmed(params.thumbnail.unwrap()@)
                        } else {
                            rv[i].thumbnail
                        })
                        &&& n.is_trash == (if params.is_trash is Some {
                            params.is_trash.unwrap()
                        } else {
                            rv[i].is_trash
                        })
                    }))
            }),
    {
        let now = now_millis();
        self.update_view_at(params, now)
    }

    /// Delete by identifier: a malformed identifier is a validation
    /// failure; otherwise the matching row, if any, is removed and the
    /// operation succeeds whether or not a row matched (idempotent
    /// delete — zero affected rows is success).
    pub fn delete_view(&mut self, view_id: &str) -> (r: Result<(), ServerError>)
        requires
            old(self).wf(),
        ensures
            final(self).wf(),
            r is Ok <==> uuid_parse(view_id@) is Some,
            r is Err ==> final(self).rows_v() == old(self).rows_v() && r->Err_0.code
                == ErrorCode::ValidationError && r->Err_0.field@ == "view_id"@,
            r is Ok ==> final(self).rows_v() == without_id(
                old(self).rows_v(),
                uuid_parse(view_id@).unwrap(),
            ),
    {
        let key = match check_view_id(view_id) {
            Ok(k) => k,
            Err(e) => {
                return Err(e);
            },
        };
        let mut out: Vec<ViewRow> = Vec::new();
        let mut i: usize = 0;
        proof {
            assert(self.rows_v().take(0) =~= Seq::<RowV>::empty());
            assert(rows_views(out@) =~= without_id(self.rows_v().take(0), key@));
        }
        while i < self.rows.len()
            invariant
                i <= self.rows@.len(),
                self.rows_v().len() == self.rows@.len(),
                uuid_parse(view_id@) == Some(key@),
                rows_views(out@) == without_id(self.rows_v().take(i as int), key@),
            decreases self.rows@.len() - i,
        {
            let ghost pre = without_id(self.rows_v().take(i as int), key@);
            proof {
                assert(self.rows_v().take(i + 1).drop_last() =~= self.rows_v().take(i as int));
                assert(self.rows_v().take(i + 1).last() == self.rows_v()[i as int]);
                assert(self.rows_v()[i as int] == self.rows@[i as int]@);
            }
            let row = &self.rows[i];
            if row.id == key {
                proof {
                    assert(without_id(self.rows_v().take(i + 1), key@) == pre);
                }
            } else {
                let ghost out_pre = rows_views(out@);
                out.push(row.clone());
                proof {
                    assert(rows_views(out@) =~= out_pre.push(self.rows_v()[i as int]));
                    assert(without_id(self.rows_v().take(i + 1), key@) == pre.push(
                        self.rows_v()[i as int],
                    ));
                }
            }
            i = i + 1;
        }
        proof {
            assert(self.rows_v().take(self.rows@.len() as int) =~= self.rows_v());
        }
        self.rows = out;
        proof {
            lemma_without_id_wf(old(self).rows_v(), key@);
        }
        Ok(())
    }
}

/// The columns of the view table, in the order a create stores them.
pub open spec fn view_table_columns() -> Seq<Seq<char>> {
    seq![
        "id"@,
        "belong_to_id"@,
        "name"@,
        "description"@,
        "modified_time"@,
        "create_time"@,
        "thumbnail"@,
        "view_type"@,
    ]
}

/// The arguments a create binds, in column order.
pub open spec fn create_args(p: CreateViewParams, id: Seq<char>, now: i64) -> Seq<SqlValueV> {
    seq![
        SqlValueV::Text(id),
        SqlValueV::Text(uuid_parse(p.belong_to_id@).unwrap()),
        SqlValueV::Text(trimmed(p.name@)),
        SqlValueV::Text(trimmed(p.desc@)),
        SqlValueV::BigInt(now),
        SqlValueV::BigInt(now),
        SqlValueV::Text(trimmed(p.thumbnail@)),
        SqlValueV::Int(p.view_type),
    ]
}

/// The `SET` columns of an update, in add order: each supplied optional
/// field, then always the modified time, then the trash flag when the
/// request carries it.
pub open spec fn update_set_cols(p: UpdateViewParams) -> Seq<Seq<char>> {
    let s0 = Seq::<Seq<char>>::empty();
    let s1 = if p.name is Some {
        s0.push("name"@)
    } else {
        s0
    };
    let s2 = if p.desc is Some {
        s1.push("description"@)
    } else {
        s1
    };
    let s3 = if p.thumbnail is Some {
        s2.push("thumbnail"@)
    } else {
        s2
    };
    let s4 = s3.push("modified_time"@);
    if p.is_trash is Some {
        s4.push("is_trash"@)
    } else {
        s4
    }
}

/// The `SET` arguments of an update, in the same order as its columns.
pub open spec fn update_set_args(p: UpdateViewParams, now: i64) -> Seq<SqlValueV> {
    let s0 = Seq::<SqlValueV>::empty();
    let s1 = if p.name is Some {
        s0.push(SqlValueV::Text(trimmed(p.name.unwrap()@)))
    } else {
        s0
    };
    let s2 = if p.desc is Some {
        s1.push(SqlValueV::Text(trimmed(p.desc.unwrap()@)))
    } else {
        s1
    };
    let s3 = if p.thumbnail is Some {
        s2.push(SqlValueV::Text(trimmed(p.thumbnail.unwrap()@)))
    } else {
        s2
    };
    let s4 = s3.push(SqlValueV::BigInt(now));
    if p.is_trash is Some {
        s4.push(SqlValueV::Bool(p.is_trash.unwrap()))
    } else {
        s4
    }
}

/// The insert a create sends: all eight columns in call order, the new
/// identifier and timestamps bound positionally.
pub fn create_view_statement(params: &CreateViewParams, new_id: &str, now: i64) -> (r: Result<
    (String, Vec<SqlValue>),
    ServerError,
>)
    ensures
        r is Ok <==> create_params_ok(*params),
        r is Err ==> r->Err_0.code == ErrorCode::ValidationError && r->Err_0.field@
            == create_error_field(*params),
        r is Ok ==> r->Ok_0.0@ == insert_sql("view_table"@, view_table_columns()) && arg_views(
            r->Ok_0.1@,
        ) == create_args(*params, new_id@, now),
{
    let name = match parse_view_name(params.name.as_str()) {
        Ok(v) => v,
        Err(e) => {
            return Err(e);
        },
    };
    let belong_to_id = match parse_identifier("belong_to_id", params.belong_to_id.as_str()) {
        Ok(v) => v,
        Err(e) => {
            return Err(e);
        },
    };
    let thumbnail = match parse_view_thumbnail(params.thumbnail.as_str()) {
        Ok(v) => v,
        Err(e) => {
            return Err(e);
        },
    };
    let description = match parse_view_desc(params.desc.as_str()) {
        Ok(v) => v,
        Err(e) => {
            return Err(e);
        },
    };
    let b = SqlBuilder::create("view_table")
        .add_arg("id", SqlValue::Text(new_id.to_owned()))
        .add_arg("belong_to_id", SqlValue::Text(belong_to_id))
        .add_arg("name", SqlValue::Text(name))
        .add_arg("description", SqlValue::Text(description))
        .add_arg("modified_time", SqlValue::BigInt(now))
        .add_arg("create_time", SqlValue::BigInt(now))
        .add_arg("thumbnail", SqlValue::Text(thumbnail))
        .add_arg("view_type", SqlValue::Int(params.view_type));
    proof {
        assert(names_of(b.sets@) =~= view_table_columns());
        assert(values_of(b.sets@) =~= create_args(*params, new_id@, now));
        assert(b.sets@.len() == names_of(b.sets@).len());
        assert(b.conds@.len() == 0);
    }
    match b.build() {
        Ok(p) => Ok(p),
        Err(e) => {
            proof {
                assert(false);
            }
            Err(e)
        },
    }
}

/// The select a read sends: all columns of the row whose identifier equals
/// the validated key.
pub fn read_view_statement(view_id: &str) -> (r: Result<(String, Vec<SqlValue>), ServerError>)
    ensures
        r is Ok <==> uuid_parse(view_id@) is Some,
        r is Err ==> r->Err_0.code == ErrorCode::ValidationError && r->Err_0.field@ == "view_id"@,
        r is Ok ==> r->Ok_0.0@ == select_sql("view_table"@, seq!["*"@], seq!["id"@]) && arg_views(
            r->Ok_0.1@,
        ) == seq![SqlValueV::Text(uuid_parse(view_id@).unwrap())],
{
    let key = match check_view_id(view_id) {
        Ok(k) => k,
        Err(e) => {
            return Err(e);
        },
    };
    let ghost key_v = key@;
    let b = SqlBuilder::select("view_table").add_field("*").and_where_eq(
        "id",
        SqlValue::Text(key),
    );
    proof {
        assert(crate::builder::str_views(b.fields@) =~= seq!["*"@]);
        assert(names_of(b.conds@) =~= seq!["id"@]);
        assert(values_of(b.conds@) =~= seq![SqlValueV::Text(key_v)]);
        assert(b.sets@.len() == 0);
        assert(b.conds@.len() == names_of(b.conds@).len());
    }
    match b.build() {
        Ok(p) => Ok(p),
        Err(e) => {
            proof {
                assert(false);
            }
            Err(e)
        },
    }
}

/// The select a hierarchical read sends over the same open transaction:
/// all columns of the rows owned by `belong_to_id`.
pub fn belongings_statement(belong_to_id: &str) -> (r: (String, Vec<SqlValue>))
    ensures
        r.0@ == select_sql("view_table"@, seq!["*"@], seq!["belong_to_id"@]),
        arg_views(r.1@) == seq![SqlValueV::Text(belong_to_id@)],
{
    let b = SqlBuilder::select("view_table").add_field("*").and_where_eq(
        "belong_to_id",
        SqlValue::Text(belong_to_id.to_owned()),
    );
    proof {
        assert(crate::builder::str_views(b.fields@) =~= seq!["*"@]);
        assert(names_of(b.conds@) =~= seq!["belong_to_id"@]);
        assert(values_of(b.conds@) =~= seq![SqlValueV::Text(belong_to_id@)]);
        assert(b.sets@.len() == 0);
        assert(b.conds@.len() == names_of(b.conds@).len());
    }
    match b.build() {
        Ok(p) => p,
        Err(_) => {
            proof {
                assert(false);
            }
            (String::new(), Vec::new())
        },
    }
}

/// The update an update request sends: only the supplied optional fields
/// contribute a `SET` column and an argument slot, the modified time is
/// always set, the trash flag only when the request carries it, and the
/// `WHERE` placeholder continues the numbering without a gap.
pub fn update_view_statement(params: &UpdateViewParams, now: i64) -> (r: Result<
    (String, Vec<SqlValue>),
    ServerError,
>)
    ensures
        r is Ok <==> update_params_ok(*params),
        r is Err ==> r->Err_0.code == ErrorCode::ValidationError && r->Err_0.field@
            == update_error_field(*params),
        r is Ok ==> r->Ok_0.0@ == update_sql("view_table"@, update_set_cols(*params), seq!["id"@])
            && arg_views(r->Ok_0.1@) == update_set_args(*params, now) + seq![SqlValueV::Text(
            uuid_parse(params.view_id@).unwrap(),
        )],
{
    let key = match check_view_id(params.view_id.as_str()) {
        Ok(k) => k,
        Err(e) => {
            return Err(e);
        },
    };
    let name = match &params.name {
        None => None,
        Some(s) => match parse_view_name(s.as_str()) {
            Ok(v) => Some(SqlValue::Text(v)),
            Err(e) => {
                return Err(e);
            },
        },
    };
    let desc = match &params.desc {
        None => None,
        Some(s) => match parse_view_desc(s.as_str()) {
            Ok(v) => Some(SqlValue::Text(v)),
            Err(e) => {
                return Err(e);
            },
        },
    };
    let thumbnail = match &params.thumbnail {
        None => None,
        Some(s) => match parse_view_thumbnail(s.as_str()) {
            Ok(v) => Some(SqlValue::Text(v)),
            Err(e) => {
                return Err(e);
            },
        },
    };
    let trash_val = match params.is_trash {
        Some(b) => b,
        None => false,
    };
    let ghost key_v = key@;
    let b = SqlBuilder::update("view_table")
        .add_some_arg("name", name)
        .add_some_arg("description", desc)
        .add_some_arg("thumbnail", thumbnail)
        .add_some_arg("modified_time", Some(SqlValue::BigInt(now)))
        .add_arg_if(params.is_trash.is_some(), "is_trash", SqlValue::Bool(trash_val))
        .and_where_eq("id", SqlValue::Text(key));
    proof {
        assert(names_of(b.sets@) =~= update_set_cols(*params));
        assert(values_of(b.sets@) =~= update_set_args(*params, now));
        assert(names_of(b.conds@) =~= seq!["id"@]);
        assert(values_of(b.conds@) =~= seq![SqlValueV::Text(key_v)]);
        assert(b.sets@.len() == names_of(b.sets@).len());
        assert(b.conds@.len() == names_of(b.conds@).len());
        assert(b.sets@.len() >= 1);
    }
    match b.build() {
        Ok(p) => {
            proof {
                assert(arg_views(p.1@) =~= update_set_args(*params, now) + seq![SqlValueV::Text(
                    key_v,
                )]);
            }
            Ok(p)
        },
        Err(e) => {
            proof {
                assert(false);
            }
            Err(e)
        },
    }
}

/// The delete a delete request sends: scoped by identifier equality.
pub fn delete_view_statement(view_id: &str) -> (r: Result<(String, Vec<SqlValue>), ServerError>)
    ensures
        r is Ok <==> uuid_parse(view_id@) is Some,
        r is Err ==> r->Err_0.code == ErrorCode::ValidationError && r->Err_0.field@ == "view_id"@,
        r is Ok ==> r->Ok_0.0@ == delete_sql("view_table"@, seq!["id"@]) && arg_views(r->Ok_0.1@)
            == seq![SqlValueV::Text(uuid_parse(view_id@).unwrap())],
{
    let key = match check_view_id(view_id) {
        Ok(k) => k,
        Err(e) => {
            return Err(e);
        },
    };
    let ghost key_v = key@;
    let b = SqlBuilder::delete("view_table").and_where_eq("id", SqlValue::Text(key));
    proof {
        assert(names_of(b.conds@) =~= seq!["id"@]);
        assert(values_of(b.conds@) =~= seq![SqlValueV::Text(key_v)]);
        assert(b.sets@.len() == 0);
        assert(b.conds@.len() == names_of(b.conds@).len());
    }
    match b.build() {
        Ok(p) => Ok(p),
        Err(e) => {
            proof {
                assert(false);
            }
            Err(e)
        },
    }
}

/// Removing the rows that carry one identifier keeps the rest exactly, so
/// well-formedness survives; every kept row stems from the original table.
pub proof fn lemma_without_id_wf(rows: Seq<RowV>, id: Seq<char>)
    requires
        wf_rows(rows),
    ensures
        wf_rows(without_id(rows, id)),
        forall|k: int|
            0 <= k < without_id(rows, id).len() ==> has_id(
                rows,
                #[trigger] without_id(rows, id)[k].id,
            ),
    decreases rows.len(),
{
    if rows.len() == 0 {
    } else {
        let prefix = rows.drop_last();
        assert(wf_rows(prefix));
        lemma_without_id_wf(prefix, id);
        let rest = without_id(prefix, id);
        assert forall|k: int| 0 <= k < rest.len() implies has_id(rows, #[trigger] rest[k].id) by {
            assert(has_id(prefix, rest[k].id));
            let w = choose|w: int| 0 <= w < prefix.len() && prefix[w].id == rest[k].id;
            assert(rows[w].id == rest[k].id);
        }
        if rows.last().id == id {
        } else {
            let res = rest.push(rows.last());
            assert forall|a: int, b: int| 0 <= a < b < res.len() implies res[a].id != res[b].id by {
                if b == res.len() - 1 {
                    assert(has_id(prefix, res[a].id));
                    let w = choose|w: int| 0 <= w < prefix.len() && prefix[w].id == res[a].id;
                    assert(prefix[w] == rows[w]);
                    assert(rows[w].id != rows[rows.len() - 1].id);
                }
            }
            assert(rows[rows.len() - 1] == rows.last());
        }
    }
}

} // verus!
