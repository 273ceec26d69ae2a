//! Finding a link among those of a record: a language or a person, each
//! with a role, as (id, name, role id, role name).

use vstd::prelude::*;

verus! {

/// A link as (id, name, role id, role name).
pub type LinkRow = (i64, String, i64, String);

/// Whether `row` links `id` with role `role_id`.
pub open spec fn links(row: LinkRow, id: i64, role_id: i64) -> bool {
    row.0 == id && row.2 == role_id
}

/// The first of `rows` that links `id` with role `role_id`, if any.
pub fn find_link(rows: &Vec<LinkRow>, id: i64, role_id: i64) -> (r: Option<LinkRow>)
    ensures
        match r {
            Some(row) => exists|i: int|
                0 <= i < rows@.len() && #[trigger] rows@[i] == row && links(row, id, role_id)
                    && forall|j: int| 0 <= j < i ==> !links(#[trigger] rows@[j], id, role_id),
            None => forall|j: int| 0 <= j < rows@.len() ==> !links(#[trigger] rows@[j], id, role_id),
        },
{
    let mut i: usize = 0;
    while i < rows.len()
        invariant
            i <= rows@.len(),
            forall|j: int| 0 <= j < i ==> !links(#[trigger] rows@[j], id, role_id),
        decreases rows@.len() - i,
    {
        if rows[i].0 == id && rows[i].2 == role_id {
            let row = (rows[i].0, rows[i].1.clone(), rows[i].2, rows[i].3.clone());
            proof {
                assert(rows@[i as int] == row);
            }
            return Some(row);
        }
        i = i + 1;
    }
    None
}

} // verus!
