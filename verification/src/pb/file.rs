//! Records of a file operation: an ordered list of file actions.

use vstd::prelude::*;

use crate::wire::{
    bool_field, bytes_field, int64_field, lemma_appended, len_field, len_items, put_bool,
    put_bytes, put_int64, put_message, put_messages, put_string, string_field, wires, Message,
};

verus! {

/// Copies a path from the secondary input onto the input.
#[derive(Debug, Clone, PartialEq, Eq)]
pub struct FileActionCopy {
    pub src: String,
    pub dest: String,
    pub mode: i32,
    pub follow_symlink: bool,
    pub dir_copy_contents: bool,
    pub attempt_unpack_docker_compatibility: bool,
    pub create_dest_path: bool,
    pub allow_wildcard: bool,
    pub allow_empty_wildcard: bool,
    pub timestamp: i64,
}

/// What a [`FileActionCopy`] holds.
pub ghost struct FileActionCopyView {
    pub src: Seq<char>,
    pub dest: Seq<char>,
    pub mode: i32,
    pub follow_symlink: bool,
    pub dir_copy_contents: bool,
    pub attempt_unpack_docker_compatibility: bool,
    pub create_dest_path: bool,
    pub allow_wildcard: bool,
    pub allow_empty_wildcard: bool,
    pub timestamp: i64,
}

impl FileActionCopyView {
    /// The encoded fields.
    pub open spec fn wire(&self) -> Seq<u8> {
        string_field(1, self.src) + string_field(2, self.dest) + int64_field(4, self.mode as i64)
            + bool_field(5, self.follow_symlink) + bool_field(6, self.dir_copy_contents)
            + bool_field(7, self.attempt_unpack_docker_compatibility) + bool_field(
            8,
            self.create_dest_path,
        ) + bool_field(9, self.allow_wildcard) + bool_field(10, self.allow_empty_wildcard)
            + int64_field(11, self.timestamp)
    }
}

impl View for FileActionCopy {
    type V = FileActionCopyView;

    open spec fn view(&self) -> FileActionCopyView {
        FileActionCopyView {
            src: self.src@,
            dest: self.dest@,
            mode: self.mode,
            follow_symlink: self.follow_symlink,
            dir_copy_contents: self.dir_copy_contents,
            attempt_unpack_docker_compatibility: self.attempt_unpack_docker_compatibility,
            create_dest_path: self.create_dest_path,
            allow_wildcard: self.allow_wildcard,
            allow_empty_wildcard: self.allow_empty_wildcard,
            timestamp: self.timestamp,
        }
    }
}

impl Message for FileActionCopy {
    open spec fn wire(&self) -> Seq<u8> {
        self@.wire()
    }

    fn encode(&self, buf: &mut Vec<u8>) {
        let ghost start = buf@;
        put_string(buf, 1, self.src.as_str());
        let ghost done = string_field(1, self.src@);
        put_string(buf, 2, self.dest.as_str());
        proof {
            lemma_appended(start, done, string_field(2, self.dest@));
        }
        let ghost done = done + string_field(2, self.dest@);
        put_int64(buf, 4, self.mode as i64);
        proof {
            lemma_appended(start, done, int64_field(4, self.mode as i64));
        }
        let ghost done = done + int64_field(4, self.mode as i64);
        put_bool(buf, 5, self.follow_symlink);
        proof {
            lemma_appended(start, done, bool_field(5, self.follow_symlink));
        }
        let ghost done = done + bool_field(5, self.follow_symlink);
        put_bool(buf, 6, self.dir_copy_contents);
        proof {
            lemma_appended(start, done, bool_field(6, self.dir_copy_contents));
        }
        let ghost done = done + bool_field(6, self.dir_copy_contents);
        put_bool(buf, 7, self.attempt_unpack_docker_compatibility);
        proof {
            lemma_appended(start, done, bool_field(7, self.attempt_unpack_docker_compatibility));
        }
        let ghost done = done + bool_field(7, self.attempt_unpack_docker_compatibility);
        put_bool(buf, 8, self.create_dest_path);
        proof {
            lemma_appended(start, done, bool_field(8, self.create_dest_path));
        }
        let ghost done = done + bool_field(8, self.create_dest_path);
        put_bool(buf, 9, self.allow_wildcard);
        proof {
            lemma_appended(start, done, bool_field(9, self.allow_wildcard));
        }
        let ghost done = done + bool_field(9, self.allow_wildcard);
        put_bool(buf, 10, self.allow_empty_wildcard);
        proof {
            lemma_appended(start, done, bool_field(10, self.allow_empty_wildcard));
        }
        let ghost done = done + bool_field(10, self.allow_empty_wildcard);
        put_int64(buf, 11, self.timestamp);
        proof {
            lemma_appended(start, done, int64_field(11, self.timestamp));
        }
    }
}

/// Creates a file with the given contents.
#[derive(Debug, Clone, PartialEq, Eq)]
pub struct FileActionMkFile {
    pub path: String,
    pub mode: i32,
    pub data: Vec<u8>,
    pub timestamp: i64,
}

/// What a [`FileActionMkFile`] holds.
pub ghost struct FileActionMkFileView {
    pub path: Seq<char>,
    pub mode: i32,
    pub data: Seq<u8>,
    pub timestamp: i64,
}

impl FileActionMkFileView {
    /// The encoded fields.
    pub open spec fn wire(&self) -> Seq<u8> {
        string_field(1, self.path) + int64_field(2, self.mode as i64) + bytes_field(3, self.data)
            + int64_field(5, self.timestamp)
    }
}

impl View for FileActionMkFile {
    type V = FileActionMkFileView;

    open spec fn view(&self) -> FileActionMkFileView {
        FileActionMkFileView {
            path: self.path@,
            mode: self.mode,
            data: self.data@,
            timestamp: self.timestamp,
        }
    }
}

impl Message for FileActionMkFile {
    open spec fn wire(&self) -> Seq<u8> {
        self@.wire()
    }

    fn encode(&self, buf: &mut Vec<u8>) {
        put_string(buf, 1, self.path.as_str());
        put_int64(buf, 2, self.mode as i64);
        put_bytes(buf, 3, self.data.as_slice());
        put_int64(buf, 5, self.timestamp);
        assert(final(buf)@ =~= old(buf)@ + self@.wire());
    }
}

/// Creates a directory.
#[derive(Debug, Clone, PartialEq, Eq)]
pub struct FileActionMkDir {
    pub path: String,
    pub mode: i32,
    pub make_parents: bool,
    pub timestamp: i64,
}

/// What a [`FileActionMkDir`] holds.
pub ghost struct FileActionMkDirView {
    pub path: Seq<char>,
    pub mode: i32,
    pub make_parents: bool,
    pub timestamp: i64,
}

impl FileActionMkDirView {
    /// The encoded fields.
    pub open spec fn wire(&self) -> Seq<u8> {
        string_field(1, self.path) + int64_field(2, self.mode as i64) + bool_field(
            3,
            self.make_parents,
        ) + int64_field(5, self.timestamp)
    }
}

impl View for FileActionMkDir {
    type V = FileActionMkDirView;

    open spec fn view(&self) -> FileActionMkDirView {
        FileActionMkDirView {
            path: self.path@,
            mode: self.mode,
            make_parents: self.make_parents,
            timestamp: self.timestamp,
        }
    }
}

impl Message for FileActionMkDir {
    open spec fn wire(&self) -> Seq<u8> {
        self@.wire()
    }

    fn encode(&self, buf: &mut Vec<u8>) {
        put_string(buf, 1, self.path.as_str());
        put_int64(buf, 2, self.mode as i64);
        put_bool(buf, 3, self.make_parents);
        put_int64(buf, 5, self.timestamp);
        assert(final(buf)@ =~= old(buf)@ + self@.wire());
    }
}

/// What a file action does.
#[derive(Debug, Clone, PartialEq, Eq)]
pub enum Action {
    Copy(FileActionCopy),
    Mkfile(FileActionMkFile),
    Mkdir(FileActionMkDir),
}

/// What an [`Action`] holds.
pub ghost enum ActionView {
    Copy(FileActionCopyView),
    Mkfile(FileActionMkFileView),
    Mkdir(FileActionMkDirView),
}

impl ActionView {
    /// The action as the one field of its kind.
    pub open spec fn wire(&self) -> Seq<u8> {
        match self {
            ActionView::Copy(copy) => len_field(4, copy.wire()),
            ActionView::Mkfile(mkfile) => len_field(5, mkfile.wire()),
            ActionView::Mkdir(mkdir) => len_field(6, mkdir.wire()),
        }
    }
}

impl View for Action {
    type V = ActionView;

    open spec fn view(&self) -> ActionView {
        match self {
            Action::Copy(copy) => ActionView::Copy(copy@),
            Action::Mkfile(mkfile) => ActionView::Mkfile(mkfile@),
            Action::Mkdir(mkdir) => ActionView::Mkdir(mkdir@),
        }
    }
}

/// One step of a file operation, with the indices of the layers it reads and
/// the index of the output it produces.
#[derive(Debug, Clone, PartialEq, Eq)]
pub struct FileAction {
    pub input: i64,
    pub secondary_input: i64,
    pub output: i64,
    pub action: Option<Action>,
}

/// What a [`FileAction`] holds.
pub ghost struct FileActionView {
    pub input: i64,
    pub secondary_input: i64,
    pub output: i64,
    pub action: Option<ActionView>,
}

impl FileActionView {
    /// The encoded fields.
    pub open spec fn wire(&self) -> Seq<u8> {
        int64_field(1, self.input) + int64_field(2, self.secondary_input) + int64_field(
            3,
            self.output,
        ) + (match self.action {
            Some(action) => action.wire(),
            None => Seq::empty(),
        })
    }
}

impl View for FileAction {
    type V = FileActionView;

    open spec fn view(&self) -> FileActionView {
        FileActionView {
            input: self.input,
            secondary_input: self.secondary_input,
            output: self.output,
            action: match self.action {
                Some(action) => Some(action@),
                None => None,
            },
        }
    }
}

impl Message for FileAction {
    open spec fn wire(&self) -> Seq<u8> {
        self@.wire()
    }

    fn encode(&self, buf: &mut Vec<u8>) {
        put_int64(buf, 1, self.input);
        put_int64(buf, 2, self.secondary_input);
        put_int64(buf, 3, self.output);
        match &self.action {
            Some(Action::Copy(copy)) => put_message(buf, 4, copy),
            Some(Action::Mkfile(mkfile)) => put_message(buf, 5, mkfile),
            Some(Action::Mkdir(mkdir)) => put_message(buf, 6, mkdir),
            None => {},
        }
        assert(final(buf)@ =~= old(buf)@ + self@.wire());
    }
}

/// The views of a list of file actions.
pub open spec fn action_views(actions: Seq<FileAction>) -> Seq<FileActionView> {
    actions.map_values(|a: FileAction| a@)
}

/// The encodings of a list of file actions.
pub open spec fn action_wires(actions: Seq<FileActionView>) -> Seq<Seq<u8>> {
    actions.map_values(|a: FileActionView| a.wire())
}

/// A file operation.
#[derive(Debug, Clone, PartialEq, Eq)]
pub struct FileOp {
    pub actions: Vec<FileAction>,
}

/// What a [`FileOp`] holds.
pub ghost struct FileOpView {
    pub actions: Seq<FileActionView>,
}

impl FileOpView {
    /// The encoded fields.
    pub open spec fn wire(&self) -> Seq<u8> {
        len_items(2, action_wires(self.actions))
    }
}

impl View for FileOp {
    type V = FileOpView;

    open spec fn view(&self) -> FileOpView {
        FileOpView { actions: action_views(self.actions@) }
    }
}

impl Message for FileOp {
    open spec fn wire(&self) -> Seq<u8> {
        self@.wire()
    }

    fn encode(&self, buf: &mut Vec<u8>) {
        put_messages(buf, 2, &self.actions);
        assert(wires(self.actions@) =~= action_wires(action_views(self.actions@)));
    }
}

} // verus!
