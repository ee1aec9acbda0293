//! File events.
use crate::common;
use crate::common::{EventHeader, ProcessId};
use crate::mask;
use crate::raw::{
    FileModeFilter, FilterKey, FILE_BLK, FILE_CHR, FILE_DIR, FILE_FIFO, FILE_LNK, FILE_REG,
    FILE_SOCK, O_ACCMODE, O_APPEND, O_ASYNC, O_CLOEXEC, O_CREAT, O_DIRECT, O_DIRECTORY, O_DSYNC,
    O_EXCL, O_NOATIME, O_NOCTTY, O_NOFOLLOW, O_NONBLOCK, O_PATH, O_RDONLY, O_RDWR, O_SYNC,
    O_TMPFILE, O_TRUNC, O_WRONLY,
};
use crate::text;
use core::ops::{BitOr, BitOrAssign};
use core::time::Duration;
use vstd::prelude::*;
use vstd::std_specs::ops::BitOrSpec;
use vstd::string::*;

verus! {

/// `flag` is set in `flags`. Two flags hold the bit of another one, and are set
/// when all of their bits are; any other `flag` is when one of its bits is.
pub open spec fn flag_set(flags: u32, flag: u32) -> bool {
    if flag == O_SYNC || flag == O_TMPFILE {
        flags & flag == flag
    } else {
        flags & flag != 0
    }
}

/// `flag` is set in `flags`.
pub fn is_flag_set(flags: u32, flag: u32) -> (r: bool)
    ensures
        r == flag_set(flags, flag),
{
    if flag == O_SYNC || flag == O_TMPFILE {
        flags & flag == flag
    } else {
        flags & flag != 0
    }
}

/// `words`, with `word` behind them when it is `present`.
#[verifier::opaque]
pub open spec fn with_word(words: Seq<Seq<char>>, present: bool, word: Seq<char>) -> Seq<
    Seq<char>,
> {
    if present {
        words.push(word)
    } else {
        words
    }
}

/// The word for the access mode in `flags`, none for the mode that stands for
/// no access.
pub open spec fn access_word(flags: u32) -> Seq<Seq<char>> {
    if flags & O_ACCMODE == O_RDONLY {
        seq!["RDONLY"@]
    } else if flags & O_ACCMODE == O_WRONLY {
        seq!["WRONLY"@]
    } else if flags & O_ACCMODE == O_RDWR {
        seq!["RDWR"@]
    } else {
        Seq::empty()
    }
}

/// The words for the open flags `flags`: the access mode, then each status flag
/// that is set.
pub open spec fn flag_words(flags: u32) -> Seq<Seq<char>> {
    let words = access_word(flags);
    let words = with_word(words, flag_set(flags, O_APPEND), "APPEND"@);
    let words = with_word(words, flag_set(flags, O_ASYNC), "ASYNC"@);
    let words = with_word(words, flag_set(flags, O_CLOEXEC), "CLOEXEC"@);
    let words = with_word(words, flag_set(flags, O_CREAT), "CREAT"@);
    let words = with_word(words, flag_set(flags, O_DIRECT), "DIRECT"@);
    let words = with_word(words, flag_set(flags, O_DIRECTORY), "DIRECTORY"@);
    let words = with_word(words, flag_set(flags, O_DSYNC), "DSYNC"@);
    let words = with_word(words, flag_set(flags, O_EXCL), "EXCL"@);
    let words = with_word(words, flag_set(flags, O_NOATIME), "NOATIME"@);
    let words = with_word(words, flag_set(flags, O_NOCTTY), "NOCTTY"@);
    let words = with_word(words, flag_set(flags, O_NOFOLLOW), "NOFOLLOW"@);
    let words = with_word(words, flag_set(flags, O_NONBLOCK), "NONBLOCK"@);
    let words = with_word(words, flag_set(flags, O_PATH), "PATH"@);
    let words = with_word(words, flag_set(flags, O_SYNC), "SYNC"@);
    let words = with_word(words, flag_set(flags, O_TRUNC), "TRUNC"@);
    with_word(words, flag_set(flags, O_TMPFILE), "TMPFILE"@)
}

fn push_if(words: &mut Vec<&'static str>, present: bool, word: &'static str)
    ensures
        text::texts(final(words)@) == with_word(text::texts(old(words)@), present, word@),
{
    reveal(with_word);
    if present {
        words.push(word);
    }
    assert(text::texts(words@) =~= with_word(text::texts(old(words)@), present, word@));
}

/// The words for `flags`, with `|` between them.
pub fn flags_text(flags: u32) -> (r: String)
    ensures
        r@ == text::joined(flag_words(flags), "|"@),
{
    let mut words: Vec<&'static str> = Vec::new();
    let access: u32 = flags & O_ACCMODE;
    if access == O_RDONLY {
        words.push("RDONLY");
    } else if access == O_WRONLY {
        words.push("WRONLY");
    } else if access == O_RDWR {
        words.push("RDWR");
    }
    assert(text::texts(words@) =~= access_word(flags));
    push_if(&mut words, is_flag_set(flags, O_APPEND), "APPEND");
    push_if(&mut words, is_flag_set(flags, O_ASYNC), "ASYNC");
    push_if(&mut words, is_flag_set(flags, O_CLOEXEC), "CLOEXEC");
    push_if(&mut words, is_flag_set(flags, O_CREAT), "CREAT");
    push_if(&mut words, is_flag_set(flags, O_DIRECT), "DIRECT");
    push_if(&mut words, is_flag_set(flags, O_DIRECTORY), "DIRECTORY");
    push_if(&mut words, is_flag_set(flags, O_DSYNC), "DSYNC");
    push_if(&mut words, is_flag_set(flags, O_EXCL), "EXCL");
    push_if(&mut words, is_flag_set(flags, O_NOATIME), "NOATIME");
    push_if(&mut words, is_flag_set(flags, O_NOCTTY), "NOCTTY");
    push_if(&mut words, is_flag_set(flags, O_NOFOLLOW), "NOFOLLOW");
    push_if(&mut words, is_flag_set(flags, O_NONBLOCK), "NONBLOCK");
    push_if(&mut words, is_flag_set(flags, O_PATH), "PATH");
    push_if(&mut words, is_flag_set(flags, O_SYNC), "SYNC");
    push_if(&mut words, is_flag_set(flags, O_TRUNC), "TRUNC");
    push_if(&mut words, is_flag_set(flags, O_TMPFILE), "TMPFILE");
    text::join(&words, "|")
}

/// Gives access to the flags that a file was opened with, read as Linux
/// `open(2)` defines them.
pub trait FileInfo {
    /// The raw open flags: the access mode and the status flags.
    spec fn spec_flags_raw(&self) -> u32;

    /// The raw open flags: the access mode and the status flags.
    fn flags_raw(&self) -> (r: u32)
        ensures
            r == self.spec_flags_raw(),
    ;

    /// The file was opened for reading, or for reading and writing.
    fn is_read(&self) -> (r: bool)
        ensures
            r == (self.spec_flags_raw() & O_ACCMODE == O_RDONLY || self.spec_flags_raw() & O_ACCMODE
                == O_RDWR),
    {
        let access: u32 = self.flags_raw() & O_ACCMODE;
        access == O_RDONLY || access == O_RDWR
    }

    /// The file was opened for writing, or for reading and writing.
    fn is_write(&self) -> (r: bool)
        ensures
            r == (self.spec_flags_raw() & O_ACCMODE == O_WRONLY || self.spec_flags_raw() & O_ACCMODE
                == O_RDWR),
    {
        let access: u32 = self.flags_raw() & O_ACCMODE;
        access == O_WRONLY || access == O_RDWR
    }

    /// `flag` is set.
    fn has_flag(&self, flag: u32) -> (r: bool)
        ensures
            r == flag_set(self.spec_flags_raw(), flag),
    {
        is_flag_set(self.flags_raw(), flag)
    }

    /// The open flags in words, such as `WRONLY|APPEND|CLOEXEC`: the access mode
    /// first, then the status flags.
    fn flags(&self) -> (r: String)
        ensures
            r@ == text::joined(flag_words(self.spec_flags_raw()), "|"@),
    {
        flags_text(self.flags_raw())
    }
}

proof fn lemma_with_word(words: Seq<Seq<char>>, present: bool, word: Seq<char>)
    ensures
        with_word(words, present, word).len() == 0 <==> words.len() == 0 && !present,
        words.len() > 0 ==> with_word(words, present, word)[0] == words[0],
{
    reveal(with_word);
}

/// The flags are written in no words exactly when the access mode is the one
/// that stands for no access and no bit is set that is a status flag.
pub proof fn law_no_words(flags: u32)
    ensures
        flag_words(flags).len() == 0 <==> flags & O_ACCMODE == 3 && flags & 0o13677700 == 0,
{
    lemma_flag_words(flags);
    assert(flags & 3 <= 3) by (bit_vector);
    assert(flags & 0o13677700 == 0 <==> flags & 0o2000 == 0
        && flags & 0o20000 == 0
        && flags & 0o2000000 == 0
        && flags & 0o100 == 0
        && flags & 0o40000 == 0
        && flags & 0o200000 == 0
        && flags & 0o10000 == 0
        && flags & 0o200 == 0
        && flags & 0o1000000 == 0
        && flags & 0o400 == 0
        && flags & 0o400000 == 0
        && flags & 0o4000 == 0
        && flags & 0o10000000 == 0
        && flags & 0o4010000 != 0o4010000
        && flags & 0o1000 == 0
        && flags & 0o20200000 != 0o20200000) by (bit_vector);
}

proof fn lemma_flag_words(flags: u32)
    ensures
        flag_words(flags).len() == 0 <==> access_word(flags).len() == 0
            && !flag_set(flags, O_APPEND)
            && !flag_set(flags, O_ASYNC)
            && !flag_set(flags, O_CLOEXEC)
            && !flag_set(flags, O_CREAT)
            && !flag_set(flags, O_DIRECT)
            && !flag_set(flags, O_DIRECTORY)
            && !flag_set(flags, O_DSYNC)
            && !flag_set(flags, O_EXCL)
            && !flag_set(flags, O_NOATIME)
            && !flag_set(flags, O_NOCTTY)
            && !flag_set(flags, O_NOFOLLOW)
            && !flag_set(flags, O_NONBLOCK)
            && !flag_set(flags, O_PATH)
            && !flag_set(flags, O_SYNC)
            && !flag_set(flags, O_TRUNC)
            && !flag_set(flags, O_TMPFILE),
        access_word(flags).len() > 0 ==> flag_words(flags)[0] == access_word(flags)[0],
{
    let w = access_word(flags);
    lemma_with_word(w, flag_set(flags, O_APPEND), "APPEND"@);
    let w = with_word(w, flag_set(flags, O_APPEND), "APPEND"@);
    lemma_with_word(w, flag_set(flags, O_ASYNC), "ASYNC"@);
    let w = with_word(w, flag_set(flags, O_ASYNC), "ASYNC"@);
    lemma_with_word(w, flag_set(flags, O_CLOEXEC), "CLOEXEC"@);
    let w = with_word(w, flag_set(flags, O_CLOEXEC), "CLOEXEC"@);
    lemma_with_word(w, flag_set(flags, O_CREAT), "CREAT"@);
    let w = with_word(w, flag_set(flags, O_CREAT), "CREAT"@);
    lemma_with_word(w, flag_set(flags, O_DIRECT), "DIRECT"@);
    let w = with_word(w, flag_set(flags, O_DIRECT), "DIRECT"@);
    lemma_with_word(w, flag_set(flags, O_DIRECTORY), "DIRECTORY"@);
    let w = with_word(w, flag_set(flags, O_DIRECTORY), "DIRECTORY"@);
    lemma_with_word(w, flag_set(flags, O_DSYNC), "DSYNC"@);
    let w = with_word(w, flag_set(flags, O_DSYNC), "DSYNC"@);
    lemma_with_word(w, flag_set(flags, O_EXCL), "EXCL"@);
    let w = with_word(w, flag_set(flags, O_EXCL), "EXCL"@);
    lemma_with_word(w, flag_set(flags, O_NOATIME), "NOATIME"@);
    let w = with_word(w, flag_set(flags, O_NOATIME), "NOATIME"@);
    lemma_with_word(w, flag_set(flags, O_NOCTTY), "NOCTTY"@);
    let w = with_word(w, flag_set(flags, O_NOCTTY), "NOCTTY"@);
    lemma_with_word(w, flag_set(flags, O_NOFOLLOW), "NOFOLLOW"@);
    let w = with_word(w, flag_set(flags, O_NOFOLLOW), "NOFOLLOW"@);
    lemma_with_word(w, flag_set(flags, O_NONBLOCK), "NONBLOCK"@);
    let w = with_word(w, flag_set(flags, O_NONBLOCK), "NONBLOCK"@);
    lemma_with_word(w, flag_set(flags, O_PATH), "PATH"@);
    let w = with_word(w, flag_set(flags, O_PATH), "PATH"@);
    lemma_with_word(w, flag_set(flags, O_SYNC), "SYNC"@);
    let w = with_word(w, flag_set(flags, O_SYNC), "SYNC"@);
    lemma_with_word(w, flag_set(flags, O_TRUNC), "TRUNC"@);
    let w = with_word(w, flag_set(flags, O_TRUNC), "TRUNC"@);
    lemma_with_word(w, flag_set(flags, O_TMPFILE), "TMPFILE"@);
}

/// The access mode of `flags` is the first word, unless it stands for no
/// access.
pub proof fn law_access_mode_comes_first(flags: u32)
    requires
        flags & O_ACCMODE != 3,
    ensures
        flag_words(flags).len() > 0,
        flag_words(flags)[0] == (if flags & O_ACCMODE == O_RDONLY {
            "RDONLY"@
        } else if flags & O_ACCMODE == O_WRONLY {
            "WRONLY"@
        } else {
            "RDWR"@
        }),
{
    lemma_flag_words(flags);
    assert(flags & 3 <= 3) by (bit_vector);
}

/// A file is opened for reading, for writing or for both, unless the access
/// mode is the one that stands for no access.
pub proof fn law_access_modes(flags: u32)
    ensures
        flags & O_ACCMODE == O_RDONLY || flags & O_ACCMODE == O_WRONLY || flags & O_ACCMODE == O_RDWR
            <==> flags & O_ACCMODE != 3,
{
    assert(flags & 3 <= 3) by (bit_vector);
}

/// The type of a filesystem object.
#[derive(Debug, Clone, Copy, PartialEq, Eq, PartialOrd, Ord, Hash, Structural)]
pub enum FileType {
    /// A regular file.
    Regular,
    /// A directory.
    Directory,
    /// A character device.
    CharDevice,
    /// A block device.
    BlockDevice,
    /// A named pipe.
    Fifo,
    /// A symbolic link.
    Symlink,
    /// A socket.
    Socket,
    /// An unrecognized type.
    Unknown,
}

impl From<FileModeFilter> for FileType {
    /// The type that a single bit stands for. A mode that is not one of the
    /// seven bits stands for an unrecognized type.
    fn from(mode: FileModeFilter) -> (r: Self) {
        match mode.mode {
            FILE_REG => FileType::Regular,
            FILE_DIR => FileType::Directory,
            FILE_CHR => FileType::CharDevice,
            FILE_BLK => FileType::BlockDevice,
            FILE_FIFO => FileType::Fifo,
            FILE_LNK => FileType::Symlink,
            FILE_SOCK => FileType::Socket,
            _ => FileType::Unknown,
        }
    }
}

impl vstd::std_specs::convert::FromSpecImpl<FileModeFilter> for FileType {
    open spec fn obeys_from_spec() -> bool {
        true
    }

    open spec fn from_spec(mode: FileModeFilter) -> Self {
        FileType::of_mode(mode.mode)
    }
}

impl FileType {
    /// The type that a single bit stands for.
    pub open spec fn of_mode(mode: u16) -> FileType {
        if mode == FILE_REG {
            FileType::Regular
        } else if mode == FILE_DIR {
            FileType::Directory
        } else if mode == FILE_CHR {
            FileType::CharDevice
        } else if mode == FILE_BLK {
            FileType::BlockDevice
        } else if mode == FILE_FIFO {
            FileType::Fifo
        } else if mode == FILE_LNK {
            FileType::Symlink
        } else if mode == FILE_SOCK {
            FileType::Socket
        } else {
            FileType::Unknown
        }
    }

    /// The Unix mode bits of the type, without permission bits.
    pub open spec fn spec_mode_bits(self) -> u32 {
        match self {
            FileType::Regular => 0o100000,
            FileType::Directory => 0o040000,
            FileType::CharDevice => 0o020000,
            FileType::BlockDevice => 0o060000,
            FileType::Fifo => 0o010000,
            FileType::Symlink => 0o120000,
            FileType::Socket => 0o140000,
            FileType::Unknown => 0,
        }
    }

    /// The Unix mode bits of the type, without permission bits.
    pub fn mode_bits(self) -> (r: u32)
        ensures
            r == self.spec_mode_bits(),
    {
        match self {
            FileType::Regular => 0o100000,
            FileType::Directory => 0o040000,
            FileType::CharDevice => 0o020000,
            FileType::BlockDevice => 0o060000,
            FileType::Fifo => 0o010000,
            FileType::Symlink => 0o120000,
            FileType::Socket => 0o140000,
            FileType::Unknown => 0,
        }
    }
}

impl From<FileType> for u32 {
    fn from(value: FileType) -> (r: Self) {
        value.mode_bits()
    }
}

impl vstd::std_specs::convert::FromSpecImpl<FileType> for u32 {
    open spec fn obeys_from_spec() -> bool {
        true
    }

    open spec fn from_spec(value: FileType) -> Self {
        value.spec_mode_bits()
    }
}

/// Two types never share their mode bits.
pub proof fn law_mode_bits_are_distinct(a: FileType, b: FileType)
    requires
        a.spec_mode_bits() == b.spec_mode_bits(),
    ensures
        a == b,
{
}

/// The kernel completed opening a file.
#[derive(Debug, Clone, PartialEq, Eq, PartialOrd, Ord, Hash)]
pub struct FileOpenEvent {
    pub header: EventHeader,
    pub file_path: String,
    pub file_type: FileType,
    pub inode: u64,
    pub retval: i32,
    pub flags: u32,
}

impl FileOpenEvent {
    /// The one-line form of the event.
    pub open spec fn spec_text(&self) -> Seq<char> {
        self.header.spec_text() + " OPEN "@ + self.file_path@ + " -> "@
            + text::signed_dec(self.retval as int)
    }

    /// The one-line form of the event.
    pub fn to_string(&self) -> (r: String)
        ensures
            r@ == self.spec_text(),
    {
        let mut out = self.header.to_string();
        out.append(" OPEN ");
        out.append(self.file_path.as_str());
        out.append(" -> ");
        text::push_signed(&mut out, self.retval as i64);
        out
    }

    /// The last component of the path, the empty text where there is none.
    pub fn file_name(&self) -> (r: &str)
        ensures
            r@ == text::path_file_name(self.file_path@),
    {
        text::file_name(self.file_path.as_str())
    }

    /// The path.
    pub fn file_path(&self) -> (r: &str)
        ensures
            r@ == self.file_path@,
    {
        self.file_path.as_str()
    }
}

impl FileInfo for FileOpenEvent {
    open spec fn spec_flags_raw(&self) -> u32 {
        self.flags
    }

    fn flags_raw(&self) -> (r: u32) {
        self.flags
    }
}

/// The kernel closed an open file.
#[derive(Debug, Clone, PartialEq, Eq, PartialOrd, Ord, Hash)]
pub struct FileCloseEvent {
    pub header: EventHeader,
    pub file_path: String,
    pub file_type: FileType,
    pub inode: u64,
    pub retval: i32,
    pub flags: u32,
}

impl FileCloseEvent {
    /// The one-line form of the event.
    pub open spec fn spec_text(&self) -> Seq<char> {
        self.header.spec_text() + " CLOSE "@ + self.file_path@ + " ("@
            + text::signed_dec(self.retval as int) + ")"@
    }

    /// The one-line form of the event.
    pub fn to_string(&self) -> (r: String)
        ensures
            r@ == self.spec_text(),
    {
        let mut out = self.header.to_string();
        out.append(" CLOSE ");
        out.append(self.file_path.as_str());
        out.append(" (");
        text::push_signed(&mut out, self.retval as i64);
        out.append(")");
        out
    }

    /// The last component of the path, the empty text where there is none.
    pub fn file_name(&self) -> (r: &str)
        ensures
            r@ == text::path_file_name(self.file_path@),
    {
        text::file_name(self.file_path.as_str())
    }

    /// The path.
    pub fn file_path(&self) -> (r: &str)
        ensures
            r@ == self.file_path@,
    {
        self.file_path.as_str()
    }
}

impl FileInfo for FileCloseEvent {
    open spec fn spec_flags_raw(&self) -> u32 {
        self.flags
    }

    fn flags_raw(&self) -> (r: u32) {
        self.flags
    }
}

/// The kernel completed reading from a file.
#[derive(Debug, Clone, PartialEq, Eq, PartialOrd, Ord, Hash)]
pub struct FileReadEvent {
    pub header: EventHeader,
    pub file_path: String,
    pub file_type: FileType,
    pub inode: u64,
    pub retval: isize,
    pub flags: u32,
}

impl FileReadEvent {
    /// The one-line form of the event.
    pub open spec fn spec_text(&self) -> Seq<char> {
        self.header.spec_text() + " READ "@ + self.file_path@ + " ("@
            + text::signed_dec(self.retval as int) + ")"@
    }

    /// The one-line form of the event.
    pub fn to_string(&self) -> (r: String)
        ensures
            r@ == self.spec_text(),
    {
        let mut out = self.header.to_string();
        out.append(" READ ");
        out.append(self.file_path.as_str());
        out.append(" (");
        text::push_signed(&mut out, self.retval as i64);
        out.append(")");
        out
    }

    /// The last component of the path, the empty text where there is none.
    pub fn file_name(&self) -> (r: &str)
        ensures
            r@ == text::path_file_name(self.file_path@),
    {
        text::file_name(self.file_path.as_str())
    }

    /// The path.
    pub fn file_path(&self) -> (r: &str)
        ensures
            r@ == self.file_path@,
    {
        self.file_path.as_str()
    }
}

impl FileInfo for FileReadEvent {
    open spec fn spec_flags_raw(&self) -> u32 {
        self.flags
    }

    fn flags_raw(&self) -> (r: u32) {
        self.flags
    }
}

/// The kernel completed writing to a file.
#[derive(Debug, Clone, PartialEq, Eq, PartialOrd, Ord, Hash)]
pub struct FileWriteEvent {
    pub header: EventHeader,
    pub file_path: String,
    pub file_type: FileType,
    pub inode: u64,
    pub retval: isize,
    pub flags: u32,
}

impl FileWriteEvent {
    /// The one-line form of the event.
    pub open spec fn spec_text(&self) -> Seq<char> {
        self.header.spec_text() + " WRITE "@ + self.file_path@ + " ("@
            + text::signed_dec(self.retval as int) + ")"@
    }

    /// The one-line form of the event.
    pub fn to_string(&self) -> (r: String)
        ensures
            r@ == self.spec_text(),
    {
        let mut out = self.header.to_string();
        out.append(" WRITE ");
        out.append(self.file_path.as_str());
        out.append(" (");
        text::push_signed(&mut out, self.retval as i64);
        out.append(")");
        out
    }

    /// The last component of the path, the empty text where there is none.
    pub fn file_name(&self) -> (r: &str)
        ensures
            r@ == text::path_file_name(self.file_path@),
    {
        text::file_name(self.file_path.as_str())
    }

    /// The path.
    pub fn file_path(&self) -> (r: &str)
        ensures
            r@ == self.file_path@,
    {
        self.file_path.as_str()
    }
}

impl FileInfo for FileWriteEvent {
    open spec fn spec_flags_raw(&self) -> u32 {
        self.flags
    }

    fn flags_raw(&self) -> (r: u32) {
        self.flags
    }
}

/// The kernel removed a directory entry of a file.
#[derive(Debug, Clone, PartialEq, Eq, PartialOrd, Ord, Hash)]
pub struct FileDeleteEvent {
    pub header: EventHeader,
    pub filename: String,
    pub file_type: FileType,
    pub retval: i32,
}

impl FileDeleteEvent {
    /// The one-line form of the event.
    pub open spec fn spec_text(&self) -> Seq<char> {
        self.header.spec_text() + " DELETE "@ + self.filename@ + " ("@
            + text::signed_dec(self.retval as int) + ")"@
    }

    /// The one-line form of the event.
    pub fn to_string(&self) -> (r: String)
        ensures
            r@ == self.spec_text(),
    {
        let mut out = self.header.to_string();
        out.append(" DELETE ");
        out.append(self.filename.as_str());
        out.append(" (");
        text::push_signed(&mut out, self.retval as i64);
        out.append(")");
        out
    }
}

/// The kernel completed renaming or moving a file.
#[derive(Debug, Clone, PartialEq, Eq, PartialOrd, Ord, Hash)]
pub struct FileRenameEvent {
    pub header: EventHeader,
    pub old_filename: String,
    pub new_filename: String,
    pub file_type: FileType,
    pub flags: u32,
    pub retval: i32,
}

impl FileRenameEvent {
    /// The one-line form of the event.
    pub open spec fn spec_text(&self) -> Seq<char> {
        self.header.spec_text() + " RENAME ("@ + self.old_filename@ + ") => ("@ + self.new_filename@ + ") ("@
            + text::signed_dec(self.retval as int) + ")"@
    }

    /// The one-line form of the event.
    pub fn to_string(&self) -> (r: String)
        ensures
            r@ == self.spec_text(),
    {
        let mut out = self.header.to_string();
        out.append(" RENAME (");
        out.append(self.old_filename.as_str());
        out.append(") => (");
        out.append(self.new_filename.as_str());
        out.append(") (");
        text::push_signed(&mut out, self.retval as i64);
        out.append(")");
        out
    }
}

impl FileInfo for FileRenameEvent {
    open spec fn spec_flags_raw(&self) -> u32 {
        self.flags
    }

    fn flags_raw(&self) -> (r: u32) {
        self.flags
    }
}

/// A file operation.
#[non_exhaustive]
#[derive(Debug, Clone, PartialEq, PartialOrd, Eq, Ord, Hash)]
pub enum FileEvent {
    Open(FileOpenEvent),
    Read(FileReadEvent),
    Close(FileCloseEvent),
    Write(FileWriteEvent),
    Delete(FileDeleteEvent),
    Rename(FileRenameEvent),
}

/// What two file events must agree on to count as the same event when events
/// are deduplicated.
#[derive(Debug, Clone, Copy, Hash, Eq, PartialEq, PartialOrd, Ord, Structural)]
pub enum FileEventKey {
    Read { inode: u64, retval: isize },
    Write { inode: u64, retval: isize },
    Open { inode: u64, flags: u32 },
    Close { inode: u64 },
    Rename { retval: i32 },
    Delete { retval: i32 },
}

impl FileEvent {
    /// The header of the event.
    pub open spec fn spec_header(&self) -> EventHeader {
        match self {
            FileEvent::Open(e) => e.header,
            FileEvent::Read(e) => e.header,
            FileEvent::Close(e) => e.header,
            FileEvent::Write(e) => e.header,
            FileEvent::Delete(e) => e.header,
            FileEvent::Rename(e) => e.header,
        }
    }

    /// The one-line form of the event.
    pub open spec fn spec_text(&self) -> Seq<char> {
        match self {
            FileEvent::Open(e) => e.spec_text(),
            FileEvent::Read(e) => e.spec_text(),
            FileEvent::Close(e) => e.spec_text(),
            FileEvent::Write(e) => e.spec_text(),
            FileEvent::Delete(e) => e.spec_text(),
            FileEvent::Rename(e) => e.spec_text(),
        }
    }

    /// The header of the event.
    pub fn header(&self) -> (r: &EventHeader)
        ensures
            *r == self.spec_header(),
    {
        match self {
            FileEvent::Open(e) => &e.header,
            FileEvent::Read(e) => &e.header,
            FileEvent::Close(e) => &e.header,
            FileEvent::Write(e) => &e.header,
            FileEvent::Delete(e) => &e.header,
            FileEvent::Rename(e) => &e.header,
        }
    }

    /// The thread that the event happened in.
    pub fn process(&self) -> (r: ProcessId)
        ensures
            r == self.spec_header().spec_process(),
    {
        self.header().process()
    }

    /// When the event happened.
    pub fn timestamp(&self) -> (r: Duration)
        ensures
            r == common::duration_of_nanos(self.spec_header().timestamp_ns),
            common::nanos_of(r) == self.spec_header().timestamp_ns,
    {
        self.header().timestamp()
    }

    /// The event happened in a kernel thread.
    pub fn is_kernel_thread(&self) -> (r: bool)
        ensures
            r == (self.spec_header().pid == 0),
    {
        self.header().is_kernel_thread()
    }

    /// The one-line form of the event.
    pub fn to_string(&self) -> (r: String)
        ensures
            r@ == self.spec_text(),
    {
        match self {
            FileEvent::Open(e) => e.to_string(),
            FileEvent::Read(e) => e.to_string(),
            FileEvent::Close(e) => e.to_string(),
            FileEvent::Write(e) => e.to_string(),
            FileEvent::Delete(e) => e.to_string(),
            FileEvent::Rename(e) => e.to_string(),
        }
    }

    /// The key for deduplication.
    pub open spec fn spec_key(&self) -> FileEventKey {
        match self {
            FileEvent::Read(e) => FileEventKey::Read { inode: e.inode, retval: e.retval },
            FileEvent::Open(e) => FileEventKey::Open { inode: e.inode, flags: e.flags },
            FileEvent::Write(e) => FileEventKey::Write { inode: e.inode, retval: e.retval },
            FileEvent::Close(e) => FileEventKey::Close { inode: e.inode },
            FileEvent::Rename(e) => FileEventKey::Rename { retval: e.retval },
            FileEvent::Delete(e) => FileEventKey::Delete { retval: e.retval },
        }
    }

    /// The bit that stands for this operation in a [`FileMask`].
    pub open spec fn spec_bit(&self) -> u8 {
        match self {
            FileEvent::Open(_) => 1,
            FileEvent::Close(_) => 2,
            FileEvent::Read(_) => 4,
            FileEvent::Write(_) => 8,
            FileEvent::Delete(_) => 16,
            FileEvent::Rename(_) => 32,
        }
    }

    /// The type of the object that the event is about.
    pub open spec fn spec_file_type(&self) -> FileType {
        match self {
            FileEvent::Open(e) => e.file_type,
            FileEvent::Read(e) => e.file_type,
            FileEvent::Close(e) => e.file_type,
            FileEvent::Write(e) => e.file_type,
            FileEvent::Delete(e) => e.file_type,
            FileEvent::Rename(e) => e.file_type,
        }
    }

    /// The path, where the event has one: renames and deletions have none.
    pub open spec fn spec_path(&self) -> Option<Seq<char>> {
        match self {
            FileEvent::Open(e) => Some(e.file_path@),
            FileEvent::Read(e) => Some(e.file_path@),
            FileEvent::Close(e) => Some(e.file_path@),
            FileEvent::Write(e) => Some(e.file_path@),
            _ => None,
        }
    }

    /// What the operation returned.
    pub open spec fn spec_retval(&self) -> int {
        match self {
            FileEvent::Open(e) => e.retval as int,
            FileEvent::Read(e) => e.retval as int,
            FileEvent::Close(e) => e.retval as int,
            FileEvent::Write(e) => e.retval as int,
            FileEvent::Delete(e) => e.retval as int,
            FileEvent::Rename(e) => e.retval as int,
        }
    }

    /// The key for deduplication.
    pub fn dedup_key(&self) -> (r: FileEventKey)
        ensures
            r == self.spec_key(),
    {
        match self {
            FileEvent::Read(e) => FileEventKey::Read { inode: e.inode, retval: e.retval },
            FileEvent::Open(e) => FileEventKey::Open { inode: e.inode, flags: e.flags },
            FileEvent::Write(e) => FileEventKey::Write { inode: e.inode, retval: e.retval },
            FileEvent::Close(e) => FileEventKey::Close { inode: e.inode },
            FileEvent::Rename(e) => FileEventKey::Rename { retval: e.retval },
            FileEvent::Delete(e) => FileEventKey::Delete { retval: e.retval },
        }
    }

    /// The mask that asks for this operation alone.
    pub fn event_type(&self) -> (r: FileMask)
        ensures
            r.bits() == self.spec_bit(),
    {
        match self {
            FileEvent::Open(_) => FileMask::open(),
            FileEvent::Close(_) => FileMask::close(),
            FileEvent::Read(_) => FileMask::read(),
            FileEvent::Write(_) => FileMask::write(),
            FileEvent::Rename(_) => FileMask::rename(),
            FileEvent::Delete(_) => FileMask::delete(),
        }
    }

    /// The type of the object that the event is about.
    pub fn file_type(&self) -> (r: &FileType)
        ensures
            *r == self.spec_file_type(),
    {
        match self {
            FileEvent::Open(e) => &e.file_type,
            FileEvent::Read(e) => &e.file_type,
            FileEvent::Close(e) => &e.file_type,
            FileEvent::Write(e) => &e.file_type,
            FileEvent::Delete(e) => &e.file_type,
            FileEvent::Rename(e) => &e.file_type,
        }
    }

    /// The path, where the event has one: renames and deletions have none.
    pub fn file_path(&self) -> (r: Option<&str>)
        ensures
            match r {
                Some(path) => self.spec_path() == Some(path@),
                None => self.spec_path() is None,
            },
    {
        match self {
            FileEvent::Open(e) => Some(e.file_path()),
            FileEvent::Read(e) => Some(e.file_path()),
            FileEvent::Close(e) => Some(e.file_path()),
            FileEvent::Write(e) => Some(e.file_path()),
            _ => None,
        }
    }

    /// The last component of the path, where the event has a path.
    pub fn file_name(&self) -> (r: Option<&str>)
        ensures
            match r {
                Some(name) => self.spec_path() is Some && name@ == text::path_file_name(
                    self.spec_path()->0,
                ),
                None => self.spec_path() is None,
            },
    {
        match self {
            FileEvent::Open(e) => Some(e.file_name()),
            FileEvent::Read(e) => Some(e.file_name()),
            FileEvent::Close(e) => Some(e.file_name()),
            FileEvent::Write(e) => Some(e.file_name()),
            _ => None,
        }
    }

    /// The name before a rename.
    pub fn old_filename(&self) -> (r: Option<&str>)
        ensures
            match r {
                Some(name) => self matches FileEvent::Rename(e) && name@ == e.old_filename@,
                None => !(self is Rename),
            },
    {
        match self {
            FileEvent::Rename(e) => Some(e.old_filename.as_str()),
            _ => None,
        }
    }

    /// The name after a rename.
    pub fn new_filename(&self) -> (r: Option<&str>)
        ensures
            match r {
                Some(name) => self matches FileEvent::Rename(e) && name@ == e.new_filename@,
                None => !(self is Rename),
            },
    {
        match self {
            FileEvent::Rename(e) => Some(e.new_filename.as_str()),
            _ => None,
        }
    }

    /// What the operation returned; a negative number is a failure.
    pub fn retval(&self) -> (r: isize)
        ensures
            r == self.spec_retval(),
    {
        match self {
            FileEvent::Open(e) => e.retval as isize,
            FileEvent::Read(e) => e.retval,
            FileEvent::Close(e) => e.retval as isize,
            FileEvent::Write(e) => e.retval,
            FileEvent::Delete(e) => e.retval as isize,
            FileEvent::Rename(e) => e.retval as isize,
        }
    }

    /// The operation succeeded.
    pub fn succeeded(&self) -> (r: bool)
        ensures
            r == (self.spec_retval() >= 0),
    {
        self.retval() >= 0
    }

    /// The operation failed.
    pub fn failed(&self) -> (r: bool)
        ensures
            r == (self.spec_retval() < 0),
    {
        !self.succeeded()
    }

    /// The inode, where the event has one: renames and deletions have none.
    pub fn inode(&self) -> (r: Option<u64>)
        ensures
            r == (match self {
                FileEvent::Open(e) => Some(e.inode),
                FileEvent::Read(e) => Some(e.inode),
                FileEvent::Close(e) => Some(e.inode),
                FileEvent::Write(e) => Some(e.inode),
                FileEvent::Delete(_) => None,
                FileEvent::Rename(_) => None,
            }),
    {
        match self {
            FileEvent::Open(e) => Some(e.inode),
            FileEvent::Read(e) => Some(e.inode),
            FileEvent::Close(e) => Some(e.inode),
            FileEvent::Write(e) => Some(e.inode),
            FileEvent::Delete(_) => None,
            FileEvent::Rename(_) => None,
        }
    }
}

/// Two file events count as the same exactly when they are of one kind and
/// agree on the fields that identify it: inode and result of reads and writes,
/// inode and flags of opens, the inode of closes, the result of renames and
/// deletions.
pub proof fn law_same_key(a: FileEvent, b: FileEvent)
    ensures
        a.spec_key() == b.spec_key() <==> match (a, b) {
            (FileEvent::Read(x), FileEvent::Read(y)) => x.inode == y.inode && x.retval == y.retval,
            (FileEvent::Write(x), FileEvent::Write(y)) => x.inode == y.inode && x.retval
                == y.retval,
            (FileEvent::Open(x), FileEvent::Open(y)) => x.inode == y.inode && x.flags == y.flags,
            (FileEvent::Close(x), FileEvent::Close(y)) => x.inode == y.inode,
            (FileEvent::Rename(x), FileEvent::Rename(y)) => x.retval == y.retval,
            (FileEvent::Delete(x), FileEvent::Delete(y)) => x.retval == y.retval,
            _ => false,
        },
{
}

/// Two events have the same mask exactly when they are of one kind.
pub proof fn law_one_bit_per_operation(a: FileEvent, b: FileEvent)
    ensures
        a.spec_bit() == b.spec_bit() <==> match (a, b) {
            (FileEvent::Open(_), FileEvent::Open(_)) => true,
            (FileEvent::Close(_), FileEvent::Close(_)) => true,
            (FileEvent::Read(_), FileEvent::Read(_)) => true,
            (FileEvent::Write(_), FileEvent::Write(_)) => true,
            (FileEvent::Delete(_), FileEvent::Delete(_)) => true,
            (FileEvent::Rename(_), FileEvent::Rename(_)) => true,
            _ => false,
        },
{
}

/// Which file events are asked for.
#[derive(Debug, Clone, Copy, PartialEq, Eq, Hash, PartialOrd, Ord, Structural)]
pub struct FileMask(u8);

impl FileMask {
    /// One bit for each operation asked for.
    pub closed spec fn bits(self) -> u8 {
        self.0
    }

    #[verifier::type_invariant]
    spec fn within_all(self) -> bool {
        mask::covers(63, self.0)
    }

    /// Nothing is asked for that is not an operation.
    pub open spec fn well_formed(self) -> bool {
        mask::covers(63, self.bits())
    }

    /// Opens.
    pub fn open() -> (r: Self)
        ensures
            r.bits() == 1,
    {
        proof {
            mask::lemma_singles();
        }
        FileMask(1)
    }

    /// Closes.
    pub fn close() -> (r: Self)
        ensures
            r.bits() == 2,
    {
        proof {
            mask::lemma_singles();
        }
        FileMask(2)
    }

    /// Reads.
    pub fn read() -> (r: Self)
        ensures
            r.bits() == 4,
    {
        proof {
            mask::lemma_singles();
        }
        FileMask(4)
    }

    /// Writes.
    pub fn write() -> (r: Self)
        ensures
            r.bits() == 8,
    {
        proof {
            mask::lemma_singles();
        }
        FileMask(8)
    }

    /// Deletions.
    pub fn delete() -> (r: Self)
        ensures
            r.bits() == 16,
    {
        proof {
            mask::lemma_singles();
        }
        FileMask(16)
    }

    /// Renames.
    pub fn rename() -> (r: Self)
        ensures
            r.bits() == 32,
    {
        proof {
            mask::lemma_singles();
        }
        FileMask(32)
    }

    /// Everything.
    pub fn all() -> (r: Self)
        ensures
            r.bits() == 63,
    {
        proof {
            mask::lemma_singles();
        }
        FileMask(63)
    }

    /// Everything that `other` asks for is asked for.
    pub fn contains(&self, other: &Self) -> (r: bool)
        ensures
            r == mask::covers(self.bits(), other.bits()),
            self.well_formed(),
            other.well_formed(),
            self.bits() == 63 ==> r,
    {
        proof {
            use_type_invariant(self);
            use_type_invariant(other);
        }
        self.0 & other.0 == other.0
    }
}

impl BitOr for FileMask {
    type Output = Self;

    fn bitor(self, rhs: Self) -> (r: Self)
        ensures
            r.bits() == self.bits() | rhs.bits(),
            r.well_formed(),
    {
        proof {
            use_type_invariant(&self);
            use_type_invariant(&rhs);
            mask::law_union_is_least_cover(self.0, rhs.0, 63);
        }
        FileMask(self.0 | rhs.0)
    }
}

impl vstd::std_specs::ops::BitOrSpecImpl for FileMask {
    open spec fn obeys_bitor_spec() -> bool {
        true
    }

    open spec fn bitor_req(self, rhs: Self) -> bool {
        true
    }

    closed spec fn bitor_spec(self, rhs: Self) -> Self {
        FileMask(self.0 | rhs.0)
    }
}

impl BitOrAssign for FileMask {
    fn bitor_assign(&mut self, rhs: Self)
        ensures
            final(self).bits() == old(self).bits() | rhs.bits(),
            final(self).well_formed(),
            *final(self) == old(self).bitor_spec(rhs),
    {
        proof {
            use_type_invariant(&*self);
            use_type_invariant(&rhs);
            mask::law_union_is_least_cover(self.0, rhs.0, 63);
        }
        self.0 = self.0 | rhs.0;
    }
}

/// Two masks that ask for the same are the same, a mask contains another exactly
/// when the union with it is the mask itself, a union contains both of its sides,
/// and the mask of everything contains every mask.
pub proof fn law_file_masks(a: FileMask, b: FileMask)
    ensures
        a.bits() == b.bits() ==> a == b,
        mask::covers(a.bits(), b.bits()) && mask::covers(b.bits(), a.bits()) ==> a == b,
        mask::covers(a.bits(), b.bits()) <==> a.bitor_spec(b) == a,
        mask::covers(a.bits(), a.bits()),
        mask::covers(a.bitor_spec(b).bits(), a.bits()),
        mask::covers(a.bitor_spec(b).bits(), b.bits()),
        a.well_formed() && b.bits() == 63 ==> mask::covers(b.bits(), a.bits()),
        a.well_formed() && b.well_formed() ==> a.bitor_spec(b).well_formed(),
{
    mask::law_covers_is_an_order(a.bits(), b.bits(), a.bits());
    mask::law_union_is_least_cover(a.bits(), b.bits(), 63);
    mask::law_covered_adds_nothing(a.bits(), b.bits());
}

impl FileMask {
    /// The name of a single operation; any other mask is written as its bits.
    pub open spec fn spec_text(self) -> Seq<char> {
        if self.bits() == 1 {
            "OPEN"@
        } else if self.bits() == 4 {
            "READ"@
        } else if self.bits() == 8 {
            "WRITE"@
        } else if self.bits() == 32 {
            "RENAME"@
        } else if self.bits() == 2 {
            "CLOSE"@
        } else if self.bits() == 16 {
            "DELETE"@
        } else {
            "FileMask("@ + text::dec(self.bits() as nat) + ")"@
        }
    }

    /// The name of a single operation; any other mask is written as its bits.
    pub fn to_string(&self) -> (r: String)
        ensures
            r@ == self.spec_text(),
    {
        if *self == FileMask::open() {
            String::from_str("OPEN")
        } else if *self == FileMask::read() {
            String::from_str("READ")
        } else if *self == FileMask::write() {
            String::from_str("WRITE")
        } else if *self == FileMask::rename() {
            String::from_str("RENAME")
        } else if *self == FileMask::close() {
            String::from_str("CLOSE")
        } else if *self == FileMask::delete() {
            String::from_str("DELETE")
        } else {
            let mut out = String::from_str("FileMask(");
            text::push_dec(&mut out, self.0 as u64);
            out.append(")");
            out
        }
    }
}

/// Which file events are delivered: the operations in `event_type` on objects
/// of the types in `file_mode`, of the tasks that `filter` asks for.
#[derive(Debug, Clone, PartialEq, Eq, PartialOrd, Ord, Hash)]
pub struct FileFilter {
    pub event_type: FileMask,
    pub file_mode: FileTypeFilter,
    pub filter: FilterKey,
}

impl Default for FileFilter {
    fn default() -> (r: Self)
        ensures
            r.event_type.bits() == 63,
            r.file_mode.0.mode == FILE_REG,
            r.filter == FilterKey::Any,
    {
        FileFilter {
            event_type: FileMask::all(),
            file_mode: FileTypeFilter::default(),
            filter: FilterKey::Any,
        }
    }
}

impl BitOr for FileFilter {
    type Output = Self;

    /// Adds the operations of `rhs`. The file types and the key stay those of
    /// the left side.
    fn bitor(self, rhs: Self) -> (r: Self)
        ensures
            r.filter == self.filter,
            r.file_mode == self.file_mode,
            r.event_type.bits() == self.event_type.bits() | rhs.event_type.bits(),
    {
        FileFilter {
            filter: self.filter,
            file_mode: self.file_mode,
            event_type: self.event_type | rhs.event_type,
        }
    }
}

impl vstd::std_specs::ops::BitOrSpecImpl for FileFilter {
    open spec fn obeys_bitor_spec() -> bool {
        true
    }

    open spec fn bitor_req(self, rhs: Self) -> bool {
        true
    }

    closed spec fn bitor_spec(self, rhs: Self) -> Self {
        FileFilter {
            filter: self.filter,
            file_mode: self.file_mode,
            event_type: FileMask(self.event_type.0 | rhs.event_type.0),
        }
    }
}

impl FileFilter {
    /// Opens, on objects of every type and of every task.
    pub fn open() -> (r: Self)
        ensures
            r.event_type.bits() == 1,
            r.file_mode.0.mode == 127,
            r.filter == FilterKey::Any,
    {
        FileFilter {
            event_type: FileMask::open(),
            file_mode: FileTypeFilter::all(),
            filter: FilterKey::Any,
        }
    }

    /// Closes, on objects of every type and of every task.
    pub fn close() -> (r: Self)
        ensures
            r.event_type.bits() == 2,
            r.file_mode.0.mode == 127,
            r.filter == FilterKey::Any,
    {
        FileFilter {
            event_type: FileMask::close(),
            file_mode: FileTypeFilter::all(),
            filter: FilterKey::Any,
        }
    }

    /// Reads, on objects of every type and of every task.
    pub fn read() -> (r: Self)
        ensures
            r.event_type.bits() == 4,
            r.file_mode.0.mode == 127,
            r.filter == FilterKey::Any,
    {
        FileFilter {
            event_type: FileMask::read(),
            file_mode: FileTypeFilter::all(),
            filter: FilterKey::Any,
        }
    }

    /// Writes, on objects of every type and of every task.
    pub fn write() -> (r: Self)
        ensures
            r.event_type.bits() == 8,
            r.file_mode.0.mode == 127,
            r.filter == FilterKey::Any,
    {
        FileFilter {
            event_type: FileMask::write(),
            file_mode: FileTypeFilter::all(),
            filter: FilterKey::Any,
        }
    }

    /// Deletions, on objects of every type and of every task.
    pub fn delete() -> (r: Self)
        ensures
            r.event_type.bits() == 16,
            r.file_mode.0.mode == 127,
            r.filter == FilterKey::Any,
    {
        FileFilter {
            event_type: FileMask::delete(),
            file_mode: FileTypeFilter::all(),
            filter: FilterKey::Any,
        }
    }

    /// Renames, on objects of every type and of every task.
    pub fn rename() -> (r: Self)
        ensures
            r.event_type.bits() == 32,
            r.file_mode.0.mode == 127,
            r.filter == FilterKey::Any,
    {
        FileFilter {
            event_type: FileMask::rename(),
            file_mode: FileTypeFilter::all(),
            filter: FilterKey::Any,
        }
    }

    /// Every file event, on objects of every type and of every task.
    pub fn all() -> (r: Self)
        ensures
            r.event_type.bits() == 63,
            r.file_mode.0.mode == 127,
            r.filter == FilterKey::Any,
    {
        FileFilter {
            event_type: FileMask::all(),
            file_mode: FileTypeFilter::all(),
            filter: FilterKey::Any,
        }
    }
}

/// Which file types are monitored. Unless something else is asked for, only
/// regular files are.
#[derive(Debug, Clone, Copy, PartialEq, Eq, PartialOrd, Ord, Hash, Structural)]
pub struct FileTypeFilter(pub FileModeFilter);

impl FileTypeFilter {
    /// Regular files.
    pub fn file_reg() -> (r: Self)
        ensures
            r.0.mode == FILE_REG,
    {
        FileTypeFilter(FileModeFilter { mode: FILE_REG })
    }

    /// Directories.
    pub fn file_dir() -> (r: Self)
        ensures
            r.0.mode == FILE_DIR,
    {
        FileTypeFilter(FileModeFilter { mode: FILE_DIR })
    }

    /// Character devices.
    pub fn file_chr() -> (r: Self)
        ensures
            r.0.mode == FILE_CHR,
    {
        FileTypeFilter(FileModeFilter { mode: FILE_CHR })
    }

    /// Block devices.
    pub fn file_blk() -> (r: Self)
        ensures
            r.0.mode == FILE_BLK,
    {
        FileTypeFilter(FileModeFilter { mode: FILE_BLK })
    }

    /// Named pipes.
    pub fn file_fifo() -> (r: Self)
        ensures
            r.0.mode == FILE_FIFO,
    {
        FileTypeFilter(FileModeFilter { mode: FILE_FIFO })
    }

    /// Symbolic links.
    pub fn file_lnk() -> (r: Self)
        ensures
            r.0.mode == FILE_LNK,
    {
        FileTypeFilter(FileModeFilter { mode: FILE_LNK })
    }

    /// Sockets.
    pub fn file_sock() -> (r: Self)
        ensures
            r.0.mode == FILE_SOCK,
    {
        FileTypeFilter(FileModeFilter { mode: FILE_SOCK })
    }

    /// All file types.
    pub fn all() -> (r: Self)
        ensures
            r.0.mode == 127,
    {
        FileTypeFilter(FileModeFilter { mode: 127 })
    }
}

impl Default for FileTypeFilter {
    fn default() -> (r: Self)
        ensures
            r.0.mode == FILE_REG,
    {
        FileTypeFilter::file_reg()
    }
}

impl BitOr for FileTypeFilter {
    type Output = Self;

    fn bitor(self, rhs: Self) -> (r: Self) {
        FileTypeFilter(FileModeFilter { mode: self.0.mode | rhs.0.mode })
    }
}

impl vstd::std_specs::ops::BitOrSpecImpl for FileTypeFilter {
    open spec fn obeys_bitor_spec() -> bool {
        true
    }

    open spec fn bitor_req(self, rhs: Self) -> bool {
        true
    }

    open spec fn bitor_spec(self, rhs: Self) -> Self {
        FileTypeFilter(FileModeFilter { mode: self.0.mode | rhs.0.mode })
    }
}

impl BitOrAssign for FileTypeFilter {
    fn bitor_assign(&mut self, rhs: Self)
        ensures
            final(self).0.mode == old(self).0.mode | rhs.0.mode,
            *final(self) == old(self).bitor_spec(rhs),
    {
        self.0.mode = self.0.mode | rhs.0.mode;
    }
}

impl From<FileTypeFilter> for FileModeFilter {
    fn from(value: FileTypeFilter) -> (r: Self) {
        value.0
    }
}

impl vstd::std_specs::convert::FromSpecImpl<FileTypeFilter> for FileModeFilter {
    open spec fn obeys_from_spec() -> bool {
        true
    }

    open spec fn from_spec(value: FileTypeFilter) -> Self {
        value.0
    }
}

} // verus!
