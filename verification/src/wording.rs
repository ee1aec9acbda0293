//! What the text forms say.
use crate::common::EventHeader;
use crate::error::Error;
use crate::file;
use crate::file::{
    FileCloseEvent, FileDeleteEvent, FileEvent, FileInfo, FileMask, FileOpenEvent, FileReadEvent,
    FileRenameEvent, FileWriteEvent,
};
use crate::ip;
use crate::ip::IpAddr;
use crate::memory::{MemoryEvent, MemoryMapEvent, MemoryUnmapEvent};
use crate::network::{
    AcceptEvent, BindEvent, CloseEvent, ConnectEvent, ListenEvent, NetworkEvent, Protocol,
    SocketEndpoints,
};
use crate::process::{ProcessEvent, ProcessExitEvent, ProcessForkEvent, ProcessStartEvent};
use crate::text;
use vstd::prelude::*;

verus! {

/// The digit that `c` is, in lower case; sixteen for what is none.
pub open spec fn digit_value(c: char) -> nat {
    if '0' <= c <= '9' {
        (c as int - '0' as int) as nat
    } else if 'a' <= c <= 'f' {
        (c as int - 'a' as int + 10) as nat
    } else {
        16
    }
}

/// The number that a numeral in `base` stands for.
pub open spec fn value_of(numeral: Seq<char>, base: nat) -> nat
    decreases numeral.len(),
{
    if numeral.len() == 0 {
        0
    } else {
        value_of(numeral.drop_last(), base) * base + digit_value(numeral.last())
    }
}

/// A numeral stands for its number, is made of digits of its base, and has no
/// leading zero unless it is the numeral of zero.
pub proof fn law_numerals(n: nat, base: nat)
    requires
        2 <= base <= 16,
    ensures
        value_of(text::numeral(n, base), base) == n,
        text::numeral(n, base).len() > 0,
        forall|i: int|
            0 <= i < text::numeral(n, base).len() ==> digit_value(
                #[trigger] text::numeral(n, base)[i],
            ) < base,
        n > 0 ==> text::numeral(n, base)[0] != '0',
        n == 0 ==> text::numeral(n, base) == seq!['0'],
    decreases n,
{
    let numeral = text::numeral(n, base);
    if n < base {
        assert(numeral =~= seq![text::digit_char(n)]);
        assert(numeral.drop_last() =~= Seq::empty());
        assert(value_of(numeral.drop_last(), base) == 0);
        assert(digit_value(text::digit_char(n)) == n);
        assert(0nat * base == 0) by (nonlinear_arith);
    } else {
        vstd::arithmetic::div_mod::lemma_div_decreases(n as int, base as int);
        law_numerals(n / base, base);
        let front = text::numeral(n / base, base);
        let d = n % base;
        assert(d < base) by (nonlinear_arith)
            requires
                d == n % base,
                base >= 2,
        ;
        assert(numeral == front.push(text::digit_char(d)));
        assert(numeral.drop_last() =~= front);
        assert(digit_value(text::digit_char(d)) == d);
        vstd::arithmetic::div_mod::lemma_fundamental_div_mod(n as int, base as int);
        assert((n / base) * base + d == n) by (nonlinear_arith)
            requires
                n == base * (n / base) + n % base,
                d == n % base,
        ;
        assert(n / base > 0) by (nonlinear_arith)
            requires
                n >= base,
                base >= 2,
        ;
        assert forall|i: int| 0 <= i < numeral.len() implies digit_value(#[trigger] numeral[i])
            < base by {
            if i < front.len() {
                assert(numeral[i] == front[i]);
            }
        }
    }
}

/// Decimal and hexadecimal numerals stand for their numbers, a negative number has
/// a minus sign in front of the numeral of its size, and a hexadecimal one with a
/// prefix starts with it.
pub proof fn law_number_texts(n: nat, i: int)
    ensures
        value_of(text::dec(n), 10) == n,
        value_of(text::hex(n), 16) == n,
        n > 0 ==> text::dec(n)[0] != '0' && text::hex(n)[0] != '0',
        text::dec(0) == seq!['0'],
        text::hex(0) == seq!['0'],
        i >= 0 ==> text::signed_dec(i) == text::dec(i as nat),
        i < 0 ==> text::signed_dec(i) == seq!['-'] + text::dec((-i) as nat),
        text::prefixed_hex(n) == seq!['0', 'x'] + text::hex(n),
        forall|k: int|
            0 <= k < text::dec(n).len() ==> '0' <= #[trigger] text::dec(n)[k] <= '9',
        forall|k: int|
            0 <= k < text::hex(n).len() ==> digit_value(#[trigger] text::hex(n)[k]) < 16,
{
    law_numerals(n, 10);
    law_numerals(n, 16);
    law_numerals(0, 10);
    law_numerals(0, 16);
    reveal_strlit("-");
    reveal_strlit("0x");
    assert("-"@ =~= seq!['-']);
    assert("0x"@ =~= seq!['0', 'x']);
    assert forall|k: int| 0 <= k < text::dec(n).len() implies '0' <= #[trigger] text::dec(n)[k]
        <= '9' by {
        assert(digit_value(text::numeral(n, 10)[k]) < 10);
    }
}

/// A list is its only part, or its parts with the separator between the last of
/// them and what is in front; no part, no text.
pub proof fn law_joined(parts: Seq<Seq<char>>, part: Seq<char>, sep: Seq<char>)
    ensures
        text::joined(Seq::<Seq<char>>::empty(), sep) == Seq::<char>::empty(),
        text::joined(seq![part], sep) == part,
        parts.len() > 0 ==> text::joined(parts.push(part), sep) == text::joined(parts, sep) + sep
            + part,
{
    assert(parts.push(part).drop_last() =~= parts);
}

/// Joining words gives their list.
pub proof fn law_join(words: Vec<&'static str>, sep: &str, r: String)
    requires
        call_ensures(text::join, (&words, sep), r),
    ensures
        r@ == text::joined(Seq::new(words@.len(), |i: int| words@[i]@), sep@),
{
    assert(text::texts(words@) =~= Seq::new(words@.len(), |i: int| words@[i]@));
}

/// The last component of a path is the one behind its last slash. A slash or a
/// component `.` at the end does not count, and a path that ends in `..` has no
/// last component.
pub proof fn law_file_name(path: &str, name: &str, front: Seq<char>, component: Seq<char>)
    requires
        call_ensures(text::file_name, (path,), name),
        forall|i: int| 0 <= i < component.len() ==> #[trigger] component[i] != '/',
        front.len() == 0 || front.last() == '/',
    ensures
        path@.len() == 0 ==> name@.len() == 0,
        path@ == front + component && component.len() > 0 && component != seq!['.'] && component
            != seq!['.', '.'] ==> name@ == component,
        path@ == front + seq!['.', '.'] ==> name@.len() == 0,
        text::path_file_name(front.push('/')) == text::path_file_name(front),
        text::path_file_name(front.push('.')) == text::path_file_name(front),
        path@ == front.push('/') ==> name@ == text::path_file_name(front),
        path@ == front.push('.') ==> name@ == text::path_file_name(front),
{
    if path@ == front + component && component.len() > 0 {
        lemma_last_component(front, component);
    }
    if path@ == front + seq!['.', '.'] {
        lemma_last_component(front, seq!['.', '.']);
    }
    assert(front.push('/').drop_last() =~= front);
    assert(front.push('.') =~= front + seq!['.']);
    lemma_last_component(front, seq!['.']);
    assert(front.push('.').last() == '.');
}

/// A slash at the end of any path does not count.
pub proof fn law_trailing_slash(path: Seq<char>)
    ensures
        text::path_file_name(path.push('/')) == text::path_file_name(path),
{
    assert(path.push('/').drop_last() =~= path);
}

proof fn lemma_last_component(front: Seq<char>, component: Seq<char>)
    requires
        component.len() > 0,
        forall|i: int| 0 <= i < component.len() ==> #[trigger] component[i] != '/',
        front.len() == 0 || front.last() == '/',
    ensures
        text::last_segment_start(front + component) == front.len(),
        (front + component).skip(front.len() as int) == component,
        (front + component).take(front.len() as int) == front,
        (front + component).last() != '/',
        (front + component).len() > 0,
{
    let p = front + component;
    assert(p.skip(front.len() as int) =~= component);
    assert(p.take(front.len() as int) =~= front);
    assert(p.last() == component.last());
    text::lemma_last_segment_start(p);
    let start = text::last_segment_start(p);
    if start > front.len() {
        assert(p[start - 1] == component[start - 1 - front.len()]);
    }
    if start < front.len() {
        assert(p[front.len() - 1] == front.last());
    }
}

/// `words`, and `word` behind them when it is `present`.
#[verifier::opaque]
pub open spec fn followed_by(words: Seq<Seq<char>>, present: bool, word: Seq<char>) -> Seq<
    Seq<char>,
> {
    if present {
        words.push(word)
    } else {
        words
    }
}

proof fn lemma_followed_by(words: Seq<Seq<char>>, present: bool, word: Seq<char>)
    ensures
        file::with_word(words, present, word) == followed_by(words, present, word),
{
    reveal(file::with_word);
    reveal(followed_by);
}

/// A word is behind the others when it is present, and nothing is otherwise.
pub proof fn law_followed_by(words: Seq<Seq<char>>, present: bool, word: Seq<char>)
    ensures
        present ==> followed_by(words, present, word) == words.push(word),
        !present ==> followed_by(words, present, word) == words,
{
    reveal(followed_by);
}

/// The word for the access mode in the two lowest bits of open flags.
pub open spec fn mode_of(flags: u32) -> Seq<Seq<char>> {
    if flags & 3 == 0 {
        seq!["RDONLY"@]
    } else if flags & 3 == 1 {
        seq!["WRONLY"@]
    } else if flags & 3 == 2 {
        seq!["RDWR"@]
    } else {
        Seq::empty()
    }
}

/// The words of open flags: the access mode, then each status flag whose bits are
/// set, in a fixed order and once each.
pub open spec fn words_of(flags: u32) -> Seq<Seq<char>> {
    let words = mode_of(flags);
    let words = followed_by(words, flags & 0o2000 != 0, "APPEND"@);
    let words = followed_by(words, flags & 0o20000 != 0, "ASYNC"@);
    let words = followed_by(words, flags & 0o2000000 != 0, "CLOEXEC"@);
    let words = followed_by(words, flags & 0o100 != 0, "CREAT"@);
    let words = followed_by(words, flags & 0o40000 != 0, "DIRECT"@);
    let words = followed_by(words, flags & 0o200000 != 0, "DIRECTORY"@);
    let words = followed_by(words, flags & 0o10000 != 0, "DSYNC"@);
    let words = followed_by(words, flags & 0o200 != 0, "EXCL"@);
    let words = followed_by(words, flags & 0o1000000 != 0, "NOATIME"@);
    let words = followed_by(words, flags & 0o400 != 0, "NOCTTY"@);
    let words = followed_by(words, flags & 0o400000 != 0, "NOFOLLOW"@);
    let words = followed_by(words, flags & 0o4000 != 0, "NONBLOCK"@);
    let words = followed_by(words, flags & 0o10000000 != 0, "PATH"@);
    let words = followed_by(words, flags & 0o4010000 == 0o4010000, "SYNC"@);
    let words = followed_by(words, flags & 0o1000 != 0, "TRUNC"@);
    followed_by(words, flags & 0o20200000 == 0o20200000, "TMPFILE"@)
}

/// The flags are written as their words with a bar between neighbours.
pub proof fn law_flags_text(flags: u32, r: String)
    requires
        call_ensures(file::flags_text, (flags,), r),
    ensures
        r@ == text::joined(words_of(flags), "|"@),
        file::flag_words(flags) == words_of(flags),
{
    lemma_words(flags);
}

proof fn lemma_words(flags: u32)
    ensures
        file::flag_words(flags) == words_of(flags),
{
    let w = file::access_word(flags);
    assert(w == mode_of(flags));
    lemma_followed_by(w, flags & 0o2000 != 0, "APPEND"@);
    let w = file::with_word(w, flags & 0o2000 != 0, "APPEND"@);
    lemma_followed_by(w, flags & 0o20000 != 0, "ASYNC"@);
    let w = file::with_word(w, flags & 0o20000 != 0, "ASYNC"@);
    lemma_followed_by(w, flags & 0o2000000 != 0, "CLOEXEC"@);
    let w = file::with_word(w, flags & 0o2000000 != 0, "CLOEXEC"@);
    lemma_followed_by(w, flags & 0o100 != 0, "CREAT"@);
    let w = file::with_word(w, flags & 0o100 != 0, "CREAT"@);
    lemma_followed_by(w, flags & 0o40000 != 0, "DIRECT"@);
    let w = file::with_word(w, flags & 0o40000 != 0, "DIRECT"@);
    lemma_followed_by(w, flags & 0o200000 != 0, "DIRECTORY"@);
    let w = file::with_word(w, flags & 0o200000 != 0, "DIRECTORY"@);
    lemma_followed_by(w, flags & 0o10000 != 0, "DSYNC"@);
    let w = file::with_word(w, flags & 0o10000 != 0, "DSYNC"@);
    lemma_followed_by(w, flags & 0o200 != 0, "EXCL"@);
    let w = file::with_word(w, flags & 0o200 != 0, "EXCL"@);
    lemma_followed_by(w, flags & 0o1000000 != 0, "NOATIME"@);
    let w = file::with_word(w, flags & 0o1000000 != 0, "NOATIME"@);
    lemma_followed_by(w, flags & 0o400 != 0, "NOCTTY"@);
    let w = file::with_word(w, flags & 0o400 != 0, "NOCTTY"@);
    lemma_followed_by(w, flags & 0o400000 != 0, "NOFOLLOW"@);
    let w = file::with_word(w, flags & 0o400000 != 0, "NOFOLLOW"@);
    lemma_followed_by(w, flags & 0o4000 != 0, "NONBLOCK"@);
    let w = file::with_word(w, flags & 0o4000 != 0, "NONBLOCK"@);
    lemma_followed_by(w, flags & 0o10000000 != 0, "PATH"@);
    let w = file::with_word(w, flags & 0o10000000 != 0, "PATH"@);
    lemma_followed_by(w, flags & 0o4010000 == 0o4010000, "SYNC"@);
    let w = file::with_word(w, flags & 0o4010000 == 0o4010000, "SYNC"@);
    lemma_followed_by(w, flags & 0o1000 != 0, "TRUNC"@);
    let w = file::with_word(w, flags & 0o1000 != 0, "TRUNC"@);
    lemma_followed_by(w, flags & 0o20200000 == 0o20200000, "TMPFILE"@);
    let w = file::with_word(w, flags & 0o20200000 == 0o20200000, "TMPFILE"@);
}

/// A flag is set when one of its bits is; the two flags that hold the bits of
/// another one are set when all of their bits are.
pub proof fn law_flag_set(flags: u32, flag: u32, r: bool)
    requires
        call_ensures(file::is_flag_set, (flags, flag), r),
    ensures
        flag == 0o4010000 || flag == 0o20200000 ==> (r <==> flags & flag == flag),
        flag != 0o4010000 && flag != 0o20200000 ==> (r <==> flags & flag != 0),
{
}

/// The flags of an open are written as their words.
pub proof fn law_open_flags_text(event: FileOpenEvent, r: String)
    requires
        call_ensures(<FileOpenEvent as FileInfo>::flags, (&event,), r),
    ensures
        r@ == text::joined(words_of(event.flags), "|"@),
{
    lemma_words(event.flags);
}

/// The flags of a read are written as their words.
pub proof fn law_read_flags_text(event: FileReadEvent, r: String)
    requires
        call_ensures(<FileReadEvent as FileInfo>::flags, (&event,), r),
    ensures
        r@ == text::joined(words_of(event.flags), "|"@),
{
    lemma_words(event.flags);
}

/// The flags of a close are written as their words.
pub proof fn law_close_flags_text(event: FileCloseEvent, r: String)
    requires
        call_ensures(<FileCloseEvent as FileInfo>::flags, (&event,), r),
    ensures
        r@ == text::joined(words_of(event.flags), "|"@),
{
    lemma_words(event.flags);
}

/// The flags of a write are written as their words.
pub proof fn law_write_flags_text(event: FileWriteEvent, r: String)
    requires
        call_ensures(<FileWriteEvent as FileInfo>::flags, (&event,), r),
    ensures
        r@ == text::joined(words_of(event.flags), "|"@),
{
    lemma_words(event.flags);
}

/// The flags of a rename are written as their words.
pub proof fn law_rename_flags_text(event: FileRenameEvent, r: String)
    requires
        call_ensures(<FileRenameEvent as FileInfo>::flags, (&event,), r),
    ensures
        r@ == text::joined(words_of(event.flags), "|"@),
{
    lemma_words(event.flags);
}

/// A header is written as its time, and its fields behind their names.
pub proof fn law_header_text(header: EventHeader, r: String)
    requires
        call_ensures(EventHeader::to_string, (&header,), r),
    ensures
        r@ == text::dec(header.timestamp_ns as nat) + " pid="@ + text::dec(header.pid as nat)
            + " tid="@ + text::dec(header.tid as nat) + " ppid="@ + text::dec(header.ppid as nat)
            + " uid="@ + text::dec(header.uid as nat) + " gid="@ + text::dec(header.gid as nat)
            + " comm="@ + header.comm@,
{
}

/// The text of the event is that of its header and what it says behind it.
pub proof fn law_file_open_text(event: FileOpenEvent, header: String, r: String)
    requires
        call_ensures(EventHeader::to_string, (&event.header,), header),
        call_ensures(FileOpenEvent::to_string, (&event,), r),
    ensures
        r@ == header@ + " OPEN "@ + event.file_path@ + " -> "@
            + text::signed_dec(event.retval as int),
{
}

/// The text of the event is that of its header and what it says behind it.
pub proof fn law_file_read_text(event: FileReadEvent, header: String, r: String)
    requires
        call_ensures(EventHeader::to_string, (&event.header,), header),
        call_ensures(FileReadEvent::to_string, (&event,), r),
    ensures
        r@ == header@ + " READ "@ + event.file_path@ + " ("@
            + text::signed_dec(event.retval as int) + ")"@,
{
}

/// The text of the event is that of its header and what it says behind it.
pub proof fn law_file_write_text(event: FileWriteEvent, header: String, r: String)
    requires
        call_ensures(EventHeader::to_string, (&event.header,), header),
        call_ensures(FileWriteEvent::to_string, (&event,), r),
    ensures
        r@ == header@ + " WRITE "@ + event.file_path@ + " ("@
            + text::signed_dec(event.retval as int) + ")"@,
{
}

/// The text of the event is that of its header and what it says behind it.
pub proof fn law_file_close_text(event: FileCloseEvent, header: String, r: String)
    requires
        call_ensures(EventHeader::to_string, (&event.header,), header),
        call_ensures(FileCloseEvent::to_string, (&event,), r),
    ensures
        r@ == header@ + " CLOSE "@ + event.file_path@ + " ("@
            + text::signed_dec(event.retval as int) + ")"@,
{
}

/// The text of the event is that of its header and what it says behind it.
pub proof fn law_file_delete_text(event: FileDeleteEvent, header: String, r: String)
    requires
        call_ensures(EventHeader::to_string, (&event.header,), header),
        call_ensures(FileDeleteEvent::to_string, (&event,), r),
    ensures
        r@ == header@ + " DELETE "@ + event.filename@ + " ("@
            + text::signed_dec(event.retval as int) + ")"@,
{
}

/// The text of the event is that of its header and what it says behind it.
pub proof fn law_file_rename_text(event: FileRenameEvent, header: String, r: String)
    requires
        call_ensures(EventHeader::to_string, (&event.header,), header),
        call_ensures(FileRenameEvent::to_string, (&event,), r),
    ensures
        r@ == header@ + " RENAME ("@ + event.old_filename@ + ") => ("@ + event.new_filename@
            + ") ("@ + text::signed_dec(event.retval as int) + ")"@,
{
}

/// The text of the event is that of its header and what it says behind it.
pub proof fn law_process_start_text(event: ProcessStartEvent, header: String, r: String)
    requires
        call_ensures(EventHeader::to_string, (&event.header,), header),
        call_ensures(ProcessStartEvent::to_string, (&event,), r),
    ensures
        r@ == header@ + " START "@ + event.filename@,
{
}

/// The text of the event is that of its header and what it says behind it.
pub proof fn law_process_exit_text(event: ProcessExitEvent, header: String, r: String)
    requires
        call_ensures(EventHeader::to_string, (&event.header,), header),
        call_ensures(ProcessExitEvent::to_string, (&event,), r),
    ensures
        r@ == header@ + " EXIT "@ + seq!['0'],
{
    let code = event.exit_code;
    assert((code << 8) & 0xff == 0) by (bit_vector);
    law_number_texts(0, 0);
}

/// The text of the event is that of its header and what it says behind it.
pub proof fn law_process_fork_text(event: ProcessForkEvent, header: String, r: String)
    requires
        call_ensures(EventHeader::to_string, (&event.parent,), header),
        call_ensures(ProcessForkEvent::to_string, (&event,), r),
    ensures
        r@ == header@ + " FORK "@ + event.child_comm@ + "("@
            + text::dec(event.child_pid as nat) + ")"@,
{
}

/// The text of the event is that of its header and what it says behind it.
pub proof fn law_memory_map_text(event: MemoryMapEvent, header: String, r: String)
    requires
        call_ensures(EventHeader::to_string, (&event.header,), header),
        call_ensures(MemoryMapEvent::to_string, (&event,), r),
    ensures
        r@ == header@ + " MMAP addr="@ + text::prefixed_hex(event.requested_address as nat)
            + " len="@ + text::prefixed_hex(event.length as nat) + " -> "@
            + text::prefixed_hex(event.mapped_address as nat),
{
}

/// The text of the event is that of its header and what it says behind it.
pub proof fn law_memory_unmap_text(event: MemoryUnmapEvent, header: String, r: String)
    requires
        call_ensures(EventHeader::to_string, (&event.header,), header),
        call_ensures(MemoryUnmapEvent::to_string, (&event,), r),
    ensures
        r@ == header@ + " MUNMAP addr="@ + text::prefixed_hex(event.requested_address as nat)
            + " len="@ + text::prefixed_hex(event.length as nat),
{
}

/// The text of the event is that of its header and what it says behind it.
pub proof fn law_socket_connect_text(
    event: ConnectEvent,
    header: String,
    protocol: &'static str,
    endpoints: String,
    r: String,
)
    requires
        call_ensures(EventHeader::to_string, (&event.header,), header),
        call_ensures(Protocol::name, (&event.protocol,), protocol),
        call_ensures(SocketEndpoints::to_string, (&event.endpoints,), endpoints),
        call_ensures(ConnectEvent::to_string, (&event,), r),
    ensures
        r@ == header@ + " "@ + protocol@ + " CONNECT "@ + endpoints@ + " -> "@
            + text::signed_dec(event.retval as int),
{
}

/// The text of the event is that of its header and what it says behind it.
pub proof fn law_socket_accept_text(
    event: AcceptEvent,
    header: String,
    protocol: &'static str,
    endpoints: String,
    r: String,
)
    requires
        call_ensures(EventHeader::to_string, (&event.header,), header),
        call_ensures(Protocol::name, (&event.protocol,), protocol),
        call_ensures(SocketEndpoints::to_string, (&event.endpoints,), endpoints),
        call_ensures(AcceptEvent::to_string, (&event,), r),
    ensures
        r@ == header@ + " "@ + protocol@ + " ACCEPT "@ + endpoints@,
{
}

/// The text of the event is that of its header and what it says behind it.
pub proof fn law_socket_close_text(
    event: CloseEvent,
    header: String,
    protocol: &'static str,
    endpoints: String,
    r: String,
)
    requires
        call_ensures(EventHeader::to_string, (&event.header,), header),
        call_ensures(Protocol::name, (&event.protocol,), protocol),
        call_ensures(SocketEndpoints::to_string, (&event.endpoints,), endpoints),
        call_ensures(CloseEvent::to_string, (&event,), r),
    ensures
        r@ == header@ + " "@ + protocol@ + " CLOSE "@ + endpoints@,
{
}

/// The text of the event is that of its header and what it says behind it.
pub proof fn law_socket_bind_text(
    event: BindEvent,
    header: String,
    protocol: &'static str,
    endpoints: String,
    r: String,
)
    requires
        call_ensures(EventHeader::to_string, (&event.header,), header),
        call_ensures(Protocol::name, (&event.protocol,), protocol),
        call_ensures(SocketEndpoints::to_string, (&event.endpoints,), endpoints),
        call_ensures(BindEvent::to_string, (&event,), r),
    ensures
        r@ == header@ + " "@ + protocol@ + " BIND "@ + endpoints@ + " -> "@
            + text::signed_dec(event.retval as int),
{
}

/// The text of the event is that of its header and what it says behind it.
pub proof fn law_socket_listen_text(
    event: ListenEvent,
    header: String,
    protocol: &'static str,
    endpoints: String,
    r: String,
)
    requires
        call_ensures(EventHeader::to_string, (&event.header,), header),
        call_ensures(Protocol::name, (&event.protocol,), protocol),
        call_ensures(SocketEndpoints::to_string, (&event.endpoints,), endpoints),
        call_ensures(ListenEvent::to_string, (&event,), r),
    ensures
        r@ == header@ + " "@ + protocol@ + " LISTEN "@ + endpoints@ + " -> "@
            + text::signed_dec(event.retval as int),
{
}

/// The text of a file event is that of what it holds.
pub proof fn law_file_event_text(event: FileEvent, r: String, held: String)
    requires
        call_ensures(FileEvent::to_string, (&event,), r),
        match event {
            FileEvent::Open(e) => call_ensures(FileOpenEvent::to_string, (&e,), held),
            FileEvent::Read(e) => call_ensures(FileReadEvent::to_string, (&e,), held),
            FileEvent::Close(e) => call_ensures(FileCloseEvent::to_string, (&e,), held),
            FileEvent::Write(e) => call_ensures(FileWriteEvent::to_string, (&e,), held),
            FileEvent::Delete(e) => call_ensures(FileDeleteEvent::to_string, (&e,), held),
            FileEvent::Rename(e) => call_ensures(FileRenameEvent::to_string, (&e,), held),
        },
    ensures
        r@ == held@,
{
}

/// The text of a network event is that of what it holds.
pub proof fn law_network_event_text(event: NetworkEvent, r: String, held: String)
    requires
        call_ensures(NetworkEvent::to_string, (&event,), r),
        match event {
            NetworkEvent::Connect(e) => call_ensures(ConnectEvent::to_string, (&e,), held),
            NetworkEvent::Accept(e) => call_ensures(AcceptEvent::to_string, (&e,), held),
            NetworkEvent::Close(e) => call_ensures(CloseEvent::to_string, (&e,), held),
            NetworkEvent::Bind(e) => call_ensures(BindEvent::to_string, (&e,), held),
            NetworkEvent::Listen(e) => call_ensures(ListenEvent::to_string, (&e,), held),
        },
    ensures
        r@ == held@,
{
}

/// The text of a process event is that of what it holds.
pub proof fn law_process_event_text(event: ProcessEvent, r: String, held: String)
    requires
        call_ensures(ProcessEvent::to_string, (&event,), r),
        match event {
            ProcessEvent::Start(e) => call_ensures(ProcessStartEvent::to_string, (&e,), held),
            ProcessEvent::Fork(e) => call_ensures(ProcessForkEvent::to_string, (&e,), held),
            ProcessEvent::Exit(e) => call_ensures(ProcessExitEvent::to_string, (&e,), held),
        },
    ensures
        r@ == held@,
{
}

/// The text of a memory event is that of what it holds.
pub proof fn law_memory_event_text(event: MemoryEvent, r: String, held: String)
    requires
        call_ensures(MemoryEvent::to_string, (&event,), r),
        match event {
            MemoryEvent::MemoryMap(e) => call_ensures(MemoryMapEvent::to_string, (&e,), held),
            MemoryEvent::MemoryUnMap(e) => call_ensures(MemoryUnmapEvent::to_string, (&e,), held),
        },
    ensures
        r@ == held@,
{
}

/// The names of the protocols.
pub proof fn law_protocol_names(protocol: Protocol, name: &'static str, r: String)
    requires
        call_ensures(Protocol::name, (&protocol,), name),
        call_ensures(Protocol::to_string, (&protocol,), r),
    ensures
        protocol is Tcp ==> name@ == "TCP"@ && r@ == "TCP"@,
        protocol is Udp ==> name@ == "UDP"@ && r@ == "UDP"@,
{
}

/// Endpoints are written as the local one, an arrow and the remote one, each with
/// its port behind a colon.
pub proof fn law_endpoints_text(
    endpoints: SocketEndpoints,
    local: String,
    remote: String,
    r: String,
)
    requires
        call_ensures(IpAddr::to_string, (&endpoints.local_ip,), local),
        call_ensures(IpAddr::to_string, (&endpoints.remote_ip,), remote),
        call_ensures(SocketEndpoints::to_string, (&endpoints,), r),
    ensures
        r@ == local@ + ":"@ + text::dec(endpoints.local_port as nat) + " -> "@ + remote@ + ":"@
            + text::dec(endpoints.remote_port as nat),
{
}

/// A mask of a single operation is written as its name, any other as its bits.
pub proof fn law_file_mask_text(mask: FileMask, r: String)
    requires
        call_ensures(FileMask::to_string, (&mask,), r),
    ensures
        mask.bits() == 1 ==> r@ == "OPEN"@,
        mask.bits() == 2 ==> r@ == "CLOSE"@,
        mask.bits() == 4 ==> r@ == "READ"@,
        mask.bits() == 8 ==> r@ == "WRITE"@,
        mask.bits() == 16 ==> r@ == "DELETE"@,
        mask.bits() == 32 ==> r@ == "RENAME"@,
        mask.bits() != 1 && mask.bits() != 2 && mask.bits() != 4 && mask.bits() != 8 && mask.bits()
            != 16 && mask.bits() != 32 ==> r@ == "FileMask("@ + text::dec(mask.bits() as nat)
            + ")"@,
{
}

/// What an error says: one that came from outside speaks for itself, but for
/// failures to load and to attach.
pub proof fn law_error_text(error: Error, r: String)
    requires
        call_ensures(Error::to_string, (&error,), r),
    ensures
        match error {
            Error::Btf(text) => r@ == text@,
            Error::Load(_) => r@ == "failed to load eBPF program"@,
            Error::Attach(_) => r@ == "failed to attach eBPF program"@,
            Error::Io(text) => r@ == text@,
            Error::MapAccess(text) => r@ == text@,
            Error::Unsupported => r@ == "unsupported kernel feature"@,
            Error::InvalidFilter => r@ == "invalid filter"@,
            Error::ProgramAccess => r@ == "failed to retrieve eBPF program"@,
            Error::NoActiveSubscriptions => r@ == "no active event subscriptions remain"@,
            Error::FilterMapAccess => r@ == "failed to access FILTER map"@,
            Error::ConfigMapAccess => r@ == "failed to access CONFIG map"@,
            Error::EventsMapAccess => r@ == "failed to access EVENTS ring buffer"@,
        },
{
}

/// An IPv4 address is written as its four bytes in order, with dots between them.
pub proof fn law_v4_text(bytes: [u8; 4], r: String)
    requires
        call_ensures(IpAddr::to_string, (&IpAddr::V4(bytes),), r),
    ensures
        r@ == text::dec(bytes@[0] as nat) + "."@ + text::dec(bytes@[1] as nat) + "."@ + text::dec(
            bytes@[2] as nat,
        ) + "."@ + text::dec(bytes@[3] as nat),
{
}

/// Group `i` of the sixteen bytes of an IPv6 address.
pub open spec fn group(bytes: Seq<u8>, i: int) -> nat {
    (bytes[2 * i] * 0x100 + bytes[2 * i + 1]) as nat
}

/// The numerals of the groups from `from` up to `to`, with colons between them.
pub open spec fn groups_of(bytes: Seq<u8>, from: int, to: int) -> Seq<char> {
    text::joined(Seq::new((to - from) as nat, |k: int| text::hex(group(bytes, from + k))), ":"@)
}

/// The groups from `from` up to `to` are all zero.
pub open spec fn zero_groups(bytes: Seq<u8>, from: int, to: int) -> bool {
    forall|k: int| from <= k < to ==> #[trigger] group(bytes, k) == 0
}

/// The address stands for an IPv4 address: ten zero bytes, then two of ones.
pub open spec fn stands_for_v4(bytes: Seq<u8>) -> bool {
    &&& zero_groups(bytes, 0, 5)
    &&& group(bytes, 5) == 0xffff
}

/// The groups from `from` up to `to` are the first of the longest rows of zero
/// groups: no row is longer, and none as long starts earlier.
pub open spec fn longest_zeros(bytes: Seq<u8>, from: int, to: int) -> bool {
    &&& 0 <= from <= to <= 8
    &&& zero_groups(bytes, from, to)
    &&& forall|a: int, b: int|
        0 <= a < b <= 8 && #[trigger] zero_groups(bytes, a, b) ==> b - a < to - from || (b - a == to
            - from && a >= from)
}

/// An IPv6 address that stands for an IPv4 address ends in the dotted form of it.
/// In any other, the first of the longest rows of zero groups is left out for two
/// colons when it is two groups or longer, and the other groups are written in
/// order. Without such a row all eight are.
pub proof fn law_v6_text(bytes: [u8; 16], r: String, from: int, to: int)
    requires
        call_ensures(IpAddr::to_string, (&IpAddr::V6(bytes),), r),
        longest_zeros(bytes@, from, to),
    ensures
        stands_for_v4(bytes@) ==> r@ == "::ffff:"@ + (text::dec(bytes@[12] as nat) + "."@
            + text::dec(bytes@[13] as nat) + "."@ + text::dec(bytes@[14] as nat) + "."@ + text::dec(
            bytes@[15] as nat,
        )),
        !stands_for_v4(bytes@) && to - from >= 2 ==> r@ == groups_of(bytes@, 0, from) + "::"@
            + groups_of(bytes@, to, 8),
        !stands_for_v4(bytes@) && to - from < 2 ==> r@ == groups_of(bytes@, 0, 8),
{
    let b = bytes@;
    let s = ip::segments(b);
    assert forall|i: int| 0 <= i < 8 implies #[trigger] s[i] == group(b, i) by {
    }
    lemma_mapped(b);
    lemma_longest(s, 8);
    let start = ip::longest_zero_run(s, 8);
    let len = ip::zero_run(s, start);
    lemma_zero_run(s, start);
    assert(zero_groups(b, start, start + len)) by {
        assert forall|k: int| start <= k < start + len implies #[trigger] group(b, k) == 0 by {
            assert(s[k] == 0);
        }
    }
    if to - from >= 1 {
        lemma_zero_run(s, from);
        assert forall|k: int| from <= k < to implies s[k] == 0 by {
            assert(group(b, k) == 0);
        }
        lemma_zero_run_at_least(s, from, to);
        assert(ip::zero_run(s, start) >= ip::zero_run(s, from));
        let other = ip::zero_run(s, from) as int;
        assert(zero_groups(b, from, from + other)) by {
            assert forall|k: int| from <= k < from + other implies #[trigger] group(b, k) == 0 by {
                assert(s[k] == 0);
            }
        }
        assert(start == from && len == to - from);
    } else if len >= 1 {
        assert(false);
    }
    assert(s.take(start).map_values(|g: nat| text::hex(g)) =~= Seq::new(
        start as nat,
        |k: int| text::hex(group(b, 0 + k)),
    ));
    assert(s.skip(start + len).map_values(|g: nat| text::hex(g)) =~= Seq::new(
        (8 - (start + len)) as nat,
        |k: int| text::hex(group(b, start + len + k)),
    ));
    assert(s.map_values(|g: nat| text::hex(g)) =~= Seq::new(
        8,
        |k: int| text::hex(group(b, 0 + k)),
    ));
}

/// Every address has a first longest row of zero groups, be it empty.
pub proof fn law_longest_zeros_exist(bytes: [u8; 16]) -> (r: (int, int))
    ensures
        longest_zeros(bytes@, r.0, r.1),
{
    let b = bytes@;
    let s = ip::segments(b);
    lemma_longest(s, 8);
    let start = ip::longest_zero_run(s, 8);
    let len = ip::zero_run(s, start) as int;
    lemma_zero_run(s, start);
    assert forall|i: int| 0 <= i < 8 implies #[trigger] s[i] == group(b, i) by {
    }
    assert(zero_groups(b, start, start + len)) by {
        assert forall|k: int| start <= k < start + len implies #[trigger] group(b, k) == 0 by {
            assert(s[k] == 0);
        }
    }
    assert forall|x: int, y: int|
        0 <= x < y <= 8 && #[trigger] zero_groups(b, x, y) implies y - x < len || (y - x == len && x
        >= start) by {
        assert forall|k: int| x <= k < y implies s[k] == 0 by {
            assert(group(b, k) == 0);
        }
        lemma_zero_run_at_least(s, x, y);
    }
    (start, start + len)
}

proof fn lemma_mapped(b: Seq<u8>)
    requires
        b.len() == 16,
    ensures
        stands_for_v4(b) <==> ip::is_v4_mapped(b),
{
    if stands_for_v4(b) {
        assert(group(b, 0) == 0 && group(b, 1) == 0 && group(b, 2) == 0 && group(b, 3) == 0
            && group(
            b,
            4,
        ) == 0);
        assert forall|i: int| 0 <= i < 10 implies #[trigger] b[i] == 0 by {
            assert(group(b, i / 2) == 0);
        }
    }
    if ip::is_v4_mapped(b) {
        assert forall|k: int| 0 <= k < 5 implies #[trigger] group(b, k) == 0 by {
            assert(b[2 * k] == 0 && b[2 * k + 1] == 0);
        }
    }
}

proof fn lemma_zero_run(s: Seq<nat>, i: int)
    requires
        0 <= i <= s.len(),
    ensures
        i + ip::zero_run(s, i) <= s.len(),
        forall|k: int| i <= k < i + ip::zero_run(s, i) ==> s[k] == 0,
    decreases s.len() - i,
{
    if i < s.len() && s[i] == 0 {
        lemma_zero_run(s, i + 1);
    }
}

proof fn lemma_zero_run_at_least(s: Seq<nat>, i: int, to: int)
    requires
        0 <= i <= to <= s.len(),
        forall|k: int| i <= k < to ==> s[k] == 0,
    ensures
        ip::zero_run(s, i) >= to - i,
    decreases to - i,
{
    if i < to {
        lemma_zero_run_at_least(s, i + 1, to);
    }
}

proof fn lemma_longest(s: Seq<nat>, n: int)
    requires
        1 <= n <= s.len(),
    ensures
        0 <= ip::longest_zero_run(s, n) < n,
        forall|i: int|
            0 <= i < n ==> #[trigger] ip::zero_run(s, i) <= ip::zero_run(
                s,
                ip::longest_zero_run(s, n),
            ),
        forall|i: int|
            0 <= i < ip::longest_zero_run(s, n) ==> #[trigger] ip::zero_run(s, i) < ip::zero_run(
                s,
                ip::longest_zero_run(s, n),
            ),
    decreases n,
{
    if n > 1 {
        lemma_longest(s, n - 1);
    }
}

} // verus!
