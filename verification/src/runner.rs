use crate::model::TaskView;
use crate::protocol::Request;
use crate::task::Task;
use crate::util::path_units;
use std::path::PathBuf;
use vstd::prelude::*;

verus! {

/// Begins to run the backup `backup_name` for the device `device_name`, with
/// the configuration kept in the directory `dir`. The task loads the
/// configuration, finds the destination, mirrors each source into it in
/// turn, and after a run that is no dry run records the time in the
/// configuration and saves it.
pub fn run_backup(dir: &PathBuf, backup_name: &str, device_name: &str, dry_run: bool) -> (r: (
    Task,
    Request,
))
    ensures
        (r.0@, r.1@) == TaskView::start_run(path_units(*dir), backup_name@, device_name@, dry_run),
        r.0@.wf(),
{
    Task::run(dir, backup_name, device_name, dry_run)
}

/// Begins to mirror the entries of `source_dir` into `dest_dir`, and so on
/// through the directories among them. A file whose place in `dest_dir` is
/// taken is left alone; in a dry run nothing is created or copied.
pub fn copy_files(source_dir: &PathBuf, dest_dir: &PathBuf, dry_run: bool) -> (r: (Task, Request))
    ensures
        (r.0@, r.1@) == TaskView::start_mirror(
            path_units(*source_dir),
            path_units(*dest_dir),
            dry_run,
        ),
        r.0@.wf(),
{
    Task::mirror(source_dir, dest_dir, dry_run)
}

} // verus!
