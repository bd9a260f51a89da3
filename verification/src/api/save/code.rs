//! Fetching one save.

use vstd::prelude::*;
use crate::api::Reply;
use crate::api::save::save::{save_file_content, save_file_name_spec};
use crate::api::save::save_file_path;
use crate::config::Config;

verus! {

/// What looking for a save's file came to.
pub enum CodeRead {
    /// There is no such file.
    Absent,
    /// The file was read; this is its content.
    Read(String),
    /// The file exists but could not be read.
    Failed,
}

/// The status and message answering a fetch that came to `outcome`.
pub open spec fn code_answer(outcome: CodeRead) -> (u16, Seq<char>) {
    match outcome {
        CodeRead::Absent => (404, "存档文件不存在"@),
        CodeRead::Read(c) => (200, c@),
        CodeRead::Failed => (500, "读取存档文件失败"@),
    }
}

/// The answer to fetching a save: `200` with the save, `404 存档文件不存在`,
/// or `500 读取存档文件失败`.
pub fn code(outcome: CodeRead) -> (r: Reply)
    ensures
        (r.status, r.message@) == code_answer(outcome),
        outcome is Absent ==> r.status == 404 && r.message@ == "存档文件不存在"@,
        outcome matches CodeRead::Read(c) ==> r.status == 200 && r.message@ == c@,
        outcome is Failed ==> r.status == 500 && r.message@ == "读取存档文件失败"@,
{
    match outcome {
        CodeRead::Absent => Reply { status: 404, message: "存档文件不存在".to_string() },
        CodeRead::Read(c) => Reply { status: 200, message: c },
        CodeRead::Failed => Reply { status: 500, message: "读取存档文件失败".to_string() },
    }
}

/// What fetching the file at `path` answers, the save files being `files`
/// (a map from path to content) and reading succeeding: the content when
/// the file is there, `404 存档文件不存在` when it is not.
pub open spec fn fetch_answer(files: Map<Seq<char>, Seq<char>>, path: Seq<char>) -> (u16, Seq<char>) {
    if files.contains_key(path) {
        (200, files[path])
    } else {
        (404, "存档文件不存在"@)
    }
}

/// Fetching a save gives back exactly what storing it wrote. Storing save
/// `save` of the character `name` in `slot` for `user` of the game `game`
/// writes [`save_file_content`] to the file [`save_file_name_spec`] at
/// [`save_file_path`]; fetching that file name for the same game and user
/// reads the same path and answers `200` with that content, whatever other
/// files there are.
pub proof fn fetch_returns_stored_save(
    files: Map<Seq<char>, Seq<char>>,
    cfg: &Config,
    game: Seq<char>,
    user: Seq<char>,
    name: Seq<char>,
    slot: nat,
    new: bool,
    save: Seq<char>,
    story: Seq<char>,
)
    ensures
        fetch_answer(
            files.insert(
                save_file_path(cfg, game, user, save_file_name_spec(name, slot, new)),
                save_file_content(save, story),
            ),
            save_file_path(cfg, game, user, save_file_name_spec(name, slot, new)),
        ) == (200u16, save_file_content(save, story)),
{
}

/// A fetch whose read gave the stored content is answered as
/// [`fetch_answer`] says.
pub proof fn code_answers_what_was_read(files: Map<Seq<char>, Seq<char>>, path: Seq<char>, content: String)
    requires
        files.contains_key(path),
        files[path] == content@,
    ensures
        code_answer(CodeRead::Read(content)) == fetch_answer(files, path),
{
}

} // verus!
