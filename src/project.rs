//! The project list's cursor and the add-project form.
use vstd::prelude::*;

use crate::api::PostProject;
use crate::navigation::Cursor;

verus! {

/// The field of the add-project form that has the focus, if any.
#[derive(Clone, Copy, Debug, PartialEq, Eq, Structural)]
pub enum ProjectItem {
    Empty,
    Name,
}

#[derive(Clone, Debug, PartialEq, Eq)]
pub struct ProjectStatus {
    pub project_table_state: Cursor,
    pub active_project_item: ProjectItem,
    pub project_item: PostProject,
}

impl Default for ProjectStatus {
    fn default() -> (r: Self)
        ensures
            r.project_table_state.selected is None,
            r.active_project_item == ProjectItem::Empty,
            r.project_item.name@ == Seq::<char>::empty(),
    {
        ProjectStatus {
            project_table_state: Cursor { selected: None },
            active_project_item: ProjectItem::Empty,
            project_item: PostProject::default(),
        }
    }
}

} // verus!
