//! The view entity: the persisted row shape, the response shape, and the
//! request parameter shapes of the four operations.

use vstd::prelude::*;

verus! {

/// One persisted row of the view table.
pub struct ViewRow {
    pub id: String,
    pub belong_to_id: String,
    pub name: String,
    pub description: String,
    pub modified_time: i64,
    pub create_time: i64,
    pub thumbnail: String,
    pub view_type: i32,
    pub is_trash: bool,
}

/// The mathematical model of a stored row.
pub struct RowV {
    pub id: Seq<char>,
    pub belong_to_id: Seq<char>,
    pub name: Seq<char>,
    pub description: Seq<char>,
    pub modified_time: i64,
    pub create_time: i64,
    pub thumbnail: Seq<char>,
    pub view_type: i32,
    pub is_trash: bool,
}

impl View for ViewRow {
    type V = RowV;

    open spec fn view(&self) -> RowV {
        RowV {
            id: self.id@,
            belong_to_id: self.belong_to_id@,
            name: self.name@,
            description: self.description@,
            modified_time: self.modified_time,
            create_time: self.create_time,
            thumbnail: self.thumbnail@,
            view_type: self.view_type,
            is_trash: self.is_trash,
        }
    }
}

impl Clone for ViewRow {
    fn clone(&self) -> (r: Self)
        ensures
            r@ == self@,
    {
        ViewRow {
            id: self.id.clone(),
            belong_to_id: self.belong_to_id.clone(),
            name: self.name.clone(),
            description: self.description.clone(),
            modified_time: self.modified_time,
            create_time: self.create_time,
            thumbnail: self.thumbnail.clone(),
            view_type: self.view_type,
            is_trash: self.is_trash,
        }
    }
}

/// The response entity: a view, with its child views populated only on
/// demand (a derived relation, not a stored column).
#[derive(Debug, PartialEq, Eq)]
pub struct ViewData {
    pub id: String,
    pub belong_to_id: String,
    pub name: String,
    pub desc: String,
    pub view_type: i32,
    pub version: i64,
    pub belongings: Vec<ViewData>,
}

/// A response entity carries exactly the stored fields of `row`, version
/// zero, and the given belongings.
pub open spec fn data_matches_row(d: ViewData, r: RowV) -> bool {
    &&& d.id@ == r.id
    &&& d.belong_to_id@ == r.belong_to_id
    &&& d.name@ == r.name
    &&& d.desc@ == r.description
    &&& d.view_type == r.view_type
    &&& d.version == 0
    &&& d.belongings@.len() == 0
}

/// Each entity matches the row at the same position.
pub open spec fn datas_match_rows(ds: Seq<ViewData>, rs: Seq<RowV>) -> bool {
    &&& ds.len() == rs.len()
    &&& forall|i: int| 0 <= i < ds.len() ==> data_matches_row(#[trigger] ds[i], rs[i])
}

/// Assembles the response entity for one row, with the given belongings.
pub fn view_from_row(row: &ViewRow, belongings: Vec<ViewData>) -> (r: ViewData)
    ensures
        r.id@ == row@.id,
        r.belong_to_id@ == row@.belong_to_id,
        r.name@ == row@.name,
        r.desc@ == row@.description,
        r.view_type == row@.view_type,
        r.version == 0,
        r.belongings == belongings,
{
    ViewData {
        id: row.id.clone(),
        belong_to_id: row.belong_to_id.clone(),
        name: row.name.clone(),
        desc: row.description.clone(),
        view_type: row.view_type,
        version: 0,
        belongings,
    }
}

/// The create request: every field is required; `view_type` is a closed
/// enumeration tag fixed at creation.
#[derive(Debug)]
pub struct CreateViewParams {
    pub name: String,
    pub belong_to_id: String,
    pub thumbnail: String,
    pub desc: String,
    pub view_type: i32,
}

/// The read request.
#[derive(Debug)]
pub struct QueryViewParams {
    pub view_id: String,
    pub read_belongings: bool,
}

/// The update request: an absent optional field is not validated and leaves
/// the stored value unchanged. `is_trash` is keyed on presence, not value:
/// `Some(false)` writes `false`, `None` writes nothing.
#[derive(Debug)]
pub struct UpdateViewParams {
    pub view_id: String,
    pub name: Option<String>,
    pub desc: Option<String>,
    pub thumbnail: Option<String>,
    pub is_trash: Option<bool>,
}

} // verus!
