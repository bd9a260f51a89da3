//! Deleting one save.

use vstd::prelude::*;
use crate::api::Reply;
use crate::text::concat_str;

verus! {

/// What deleting a save's file came to.
pub enum RemoveOutcome {
    /// There is no such file (or it is not a regular file), so nothing was deleted.
    Absent,
    /// The file was deleted.
    Removed,
    /// Deleting the file failed.
    Failed,
}

/// The answer to deleting the save `name`: `200 存档 <name> 已删除`,
/// `404 存档文件不存在`, or `500 存档删除失败`.
pub fn remove(name: &str, outcome: RemoveOutcome) -> (r: Reply)
    ensures
        outcome is Absent ==> r.status == 404 && r.message@ == "存档文件不存在"@,
        outcome is Removed ==> r.status == 200 && r.message@ == "存档 "@ + name@ + " 已删除"@,
        outcome is Failed ==> r.status == 500 && r.message@ == "存档删除失败"@,
{
    match outcome {
        RemoveOutcome::Absent => Reply { status: 404, message: "存档文件不存在".to_string() },
        RemoveOutcome::Removed => {
            let a = concat_str("存档 ", name);
            Reply { status: 200, message: concat_str(a.as_str(), " 已删除") }
        },
        RemoveOutcome::Failed => Reply { status: 500, message: "存档删除失败".to_string() },
    }
}

} // verus!
