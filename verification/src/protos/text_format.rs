//! The text form of the messages, as protobuf's text format writes it on one line: the
//! fields that are set, in order and separated by a space; a scalar field that holds its
//! default value (0, `false`, an empty string, the first enum value) is left out; a
//! sub-message is written `name {...}`; a string is quoted, with its bytes escaped.
use crate::protos::module::{
    ActorType, AlarmConfig, CronItem, CycleConfig, ManualConfig, RelayOutletConfig, RelayOutletConfigView,
    RelayOutletMode,
};
use crate::text::{decimal, digit_char, digit_str, join_strings, join_with, strs, usize_to_decimal};
use vstd::prelude::*;

verus! {

/// How `{}` writes an `i32`.
pub open spec fn i32_text(v: i32) -> Seq<char> {
    if v < 0 {
        seq!['-'] + decimal((0 - v) as nat)
    } else {
        decimal(v as nat)
    }
}

/// Writes an `i32` as `{}` does.
pub fn i32_to_text(v: i32) -> (r: String)
    ensures
        r@ == i32_text(v),
{
    if v < 0 {
        let n: i64 = 0 - (v as i64);
        let d = usize_to_decimal(n as usize);
        proof {
            reveal_strlit("-");
        }
        String::from_str("-").concat(d.as_str())
    } else {
        usize_to_decimal(v as usize)
    }
}

/// How `{}` writes a `bool`.
pub open spec fn bool_text(b: bool) -> Seq<char> {
    if b { "true"@ } else { "false"@ }
}

/// The bytes of a char in UTF-8.
pub open spec fn utf8_bytes(c: char) -> Seq<int> {
    let u = (c as u32) as int;
    if u < 0x80 {
        seq![u]
    } else if u < 0x800 {
        seq![0xC0 + u / 64, 0x80 + u % 64]
    } else if u < 0x10000 {
        seq![0xE0 + u / 4096, 0x80 + (u / 64) % 64, 0x80 + u % 64]
    } else {
        seq![0xF0 + u / 262144, 0x80 + (u / 4096) % 64, 0x80 + (u / 64) % 64, 0x80 + u % 64]
    }
}

/// A byte written as a backslash and three octal digits.
pub open spec fn octal_escape(b: int) -> Seq<char> {
    seq!['\\', digit_char((b / 64) as nat), digit_char(((b / 8) % 8) as nat), digit_char((b % 8) as nat)]
}

/// Bytes, each written as an octal escape.
pub open spec fn octal_bytes(bs: Seq<int>) -> Seq<char>
    decreases bs.len(),
{
    if bs.len() == 0 {
        Seq::empty()
    } else {
        octal_bytes(bs.drop_last()) + octal_escape(bs.last())
    }
}

/// How a char of a string is written inside quotes: a few control chars, quotes and the
/// backslash by a backslash escape, printable ASCII as it is, any other char by the
/// octal escapes of its UTF-8 bytes.
pub open spec fn char_escape(c: char) -> Seq<char> {
    if c == '\n' {
        seq!['\\', 'n']
    } else if c == '\r' {
        seq!['\\', 'r']
    } else if c == '\t' {
        seq!['\\', 't']
    } else if c == '\'' {
        seq!['\\', '\'']
    } else if c == '"' {
        seq!['\\', '"']
    } else if c == '\\' {
        seq!['\\', '\\']
    } else if 0x20 <= (c as u32) && (c as u32) <= 0x7e {
        seq![c]
    } else {
        octal_bytes(utf8_bytes(c))
    }
}

/// A string with each of its chars escaped.
pub open spec fn escaped(s: Seq<char>) -> Seq<char>
    decreases s.len(),
{
    if s.len() == 0 {
        Seq::empty()
    } else {
        escaped(s.drop_last()) + char_escape(s.last())
    }
}

/// A string in quotes, escaped.
pub open spec fn quoted(s: Seq<char>) -> Seq<char> {
    seq!['"'] + escaped(s) + seq!['"']
}

fn octal_of(b: u32) -> (r: String)
    requires
        b < 256,
    ensures
        r@ == octal_escape(b as int),
{
    proof {
        reveal_strlit("\\");
    }
    String::from_str("\\")
        .concat(digit_str((b / 64) as usize))
        .concat(digit_str(((b / 8) % 8) as usize))
        .concat(digit_str((b % 8) as usize))
}

proof fn lemma_octal_bytes_push(bs: Seq<int>, b: int)
    ensures
        octal_bytes(bs.push(b)) == octal_bytes(bs) + octal_escape(b),
{
    assert(bs.push(b).drop_last() =~= bs);
}

fn utf8_octal(c: char) -> (r: String)
    ensures
        r@ == octal_bytes(utf8_bytes(c)),
{
    let u = c as u32;
    let ghost e = Seq::<int>::empty();
    proof {
        assert(octal_bytes(e) == Seq::<char>::empty());
    }
    if u < 0x80 {
        let r = octal_of(u);
        proof {
            assert(utf8_bytes(c) =~= e.push(u as int));
            lemma_octal_bytes_push(e, u as int);
            assert(octal_bytes(utf8_bytes(c)) =~= octal_escape(u as int));
        }
        r
    } else if u < 0x800 {
        let r = octal_of(0xC0 + u / 64).concat(octal_of(0x80 + u % 64).as_str());
        proof {
            let b0 = 0xC0 + (u as int) / 64;
            let b1 = 0x80 + (u as int) % 64;
            assert(utf8_bytes(c) =~= e.push(b0).push(b1));
            lemma_octal_bytes_push(e, b0);
            lemma_octal_bytes_push(e.push(b0), b1);
            assert(octal_bytes(utf8_bytes(c)) =~= octal_escape(b0) + octal_escape(b1));
        }
        r
    } else if u < 0x10000 {
        let r = octal_of(0xE0 + u / 4096).concat(octal_of(0x80 + (u / 64) % 64).as_str())
            .concat(octal_of(0x80 + u % 64).as_str());
        proof {
            let b0 = 0xE0 + (u as int) / 4096;
            let b1 = 0x80 + ((u as int) / 64) % 64;
            let b2 = 0x80 + (u as int) % 64;
            assert(utf8_bytes(c) =~= e.push(b0).push(b1).push(b2));
            lemma_octal_bytes_push(e, b0);
            lemma_octal_bytes_push(e.push(b0), b1);
            lemma_octal_bytes_push(e.push(b0).push(b1), b2);
            assert(octal_bytes(utf8_bytes(c)) =~= octal_escape(b0) + octal_escape(b1) + octal_escape(b2));
        }
        r
    } else {
        assert(u <= 0x10FFFF);
        let r = octal_of(0xF0 + u / 262144).concat(octal_of(0x80 + (u / 4096) % 64).as_str())
            .concat(octal_of(0x80 + (u / 64) % 64).as_str()).concat(octal_of(0x80 + u % 64).as_str());
        proof {
            let b0 = 0xF0 + (u as int) / 262144;
            let b1 = 0x80 + ((u as int) / 4096) % 64;
            let b2 = 0x80 + ((u as int) / 64) % 64;
            let b3 = 0x80 + (u as int) % 64;
            assert(utf8_bytes(c) =~= e.push(b0).push(b1).push(b2).push(b3));
            lemma_octal_bytes_push(e, b0);
            lemma_octal_bytes_push(e.push(b0), b1);
            lemma_octal_bytes_push(e.push(b0).push(b1), b2);
            lemma_octal_bytes_push(e.push(b0).push(b1).push(b2), b3);
            assert(octal_bytes(utf8_bytes(c)) =~= octal_escape(b0) + octal_escape(b1) + octal_escape(b2) + octal_escape(b3));
        }
        r
    }
}

/// Escapes char `i` of `s`.
fn escape_at(s: &str, i: usize) -> (r: String)
    requires
        i < s@.len(),
    ensures
        r@ == char_escape(s@[i as int]),
{
    let n = s.unicode_len();
    let c = s.get_char(i);
    proof {
        reveal_strlit("\\n");
        reveal_strlit("\\r");
        reveal_strlit("\\t");
        reveal_strlit("\\'");
        reveal_strlit("\\\"");
        reveal_strlit("\\\\");
    }
    if c == '\n' {
        String::from_str("\\n")
    } else if c == '\r' {
        String::from_str("\\r")
    } else if c == '\t' {
        String::from_str("\\t")
    } else if c == '\'' {
        String::from_str("\\'")
    } else if c == '"' {
        String::from_str("\\\"")
    } else if c == '\\' {
        String::from_str("\\\\")
    } else if 0x20 <= (c as u32) && (c as u32) <= 0x7e {
        let r = String::from_str(s.substring_char(i, i + 1));
        proof {
            assert(r@ =~= seq![c]);
        }
        r
    } else {
        utf8_octal(c)
    }
}

/// Writes a string in quotes, escaped.
pub fn quote(s: &str) -> (r: String)
    ensures
        r@ == quoted(s@),
{
    proof {
        reveal_strlit("\"");
    }
    let n = s.unicode_len();
    let mut out = String::from_str("\"");
    let mut i: usize = 0;
    proof {
        assert(s@.subrange(0, 0) =~= Seq::<char>::empty());
        assert(out@ =~= seq!['"'] + escaped(s@.subrange(0, 0)));
    }
    while i < n
        invariant
            i <= n,
            n == s@.len(),
            out@ == seq!['"'] + escaped(s@.subrange(0, i as int)),
        decreases n - i,
    {
        let e = escape_at(s, i);
        proof {
            assert(s@.subrange(0, i + 1).drop_last() =~= s@.subrange(0, i as int));
            assert(s@.subrange(0, i + 1).last() == s@[i as int]);
        }
        out.append(e.as_str());
        proof {
            assert(out@ =~= seq!['"'] + escaped(s@.subrange(0, i + 1)));
        }
        i = i + 1;
    }
    proof {
        assert(s@.subrange(0, n as int) =~= s@);
    }
    out.append("\"");
    out
}

/// The field list holding `text` when `cond` holds, and nothing otherwise.
pub open spec fn present(cond: bool, text: Seq<char>) -> Seq<Seq<char>> {
    if cond { seq![text] } else { Seq::empty() }
}

/// A scalar field: its name, a colon and its value.
pub open spec fn scalar_field(name: Seq<char>, value: Seq<char>) -> Seq<char> {
    name + ": "@ + value
}

/// A sub-message field: its name and the sub-message in braces.
pub open spec fn message_field(name: Seq<char>, body: Seq<char>) -> Seq<char> {
    name + " {"@ + body + "}"@
}

fn push_if(v: &mut Vec<String>, cond: bool, text: String)
    ensures
        strs(final(v)@) == strs(old(v)@) + present(cond, text@),
{
    if cond {
        let ghost before = strs(v@);
        v.push(text);
        proof {
            assert(strs(v@) =~= before + present(cond, text@));
        }
    } else {
        assert(strs(v@) =~= strs(v@) + present(cond, text@));
    }
}

fn scalar(name: &str, value: String) -> (r: String)
    ensures
        r@ == scalar_field(name@, value@),
{
    String::from_str(name).concat(": ").concat(value.as_str())
}

fn message(name: &str, body: String) -> (r: String)
    ensures
        r@ == message_field(name@, body@),
{
    String::from_str(name).concat(" {").concat(body.as_str()).concat("}")
}

/// The text of a time of day.
pub open spec fn cron_text(c: CronItem) -> Seq<char> {
    join_with(present(c.hour != 0, scalar_field("hour"@, i32_text(c.hour)))
        + present(c.minute != 0, scalar_field("minute"@, i32_text(c.minute))), " "@)
}

/// Writes a time of day as text.
pub fn cron_to_text(c: &CronItem) -> (r: String)
    ensures
        r@ == cron_text(*c),
{
    let mut v: Vec<String> = Vec::new();
    push_if(&mut v, c.hour != 0, scalar("hour", i32_to_text(c.hour)));
    push_if(&mut v, c.minute != 0, scalar("minute", i32_to_text(c.minute)));
    proof {
        assert(strs(v@) =~= present(c.hour != 0, scalar_field("hour"@, i32_text(c.hour)))
            + present(c.minute != 0, scalar_field("minute"@, i32_text(c.minute))));
    }
    join_strings(&v, " ")
}

/// The text of a manual setting.
pub open spec fn manual_text(m: ManualConfig) -> Seq<char> {
    join_with(present(m.state, scalar_field("state"@, bool_text(m.state)))
        + present(m.duration != 0, scalar_field("duration"@, i32_text(m.duration))), " "@)
}

fn bool_to_text(b: bool) -> (r: String)
    ensures
        r@ == bool_text(b),
{
    if b { String::from_str("true") } else { String::from_str("false") }
}

/// Writes a manual setting as text.
pub fn manual_to_text(m: &ManualConfig) -> (r: String)
    ensures
        r@ == manual_text(*m),
{
    let mut v: Vec<String> = Vec::new();
    push_if(&mut v, m.state, scalar("state", bool_to_text(m.state)));
    push_if(&mut v, m.duration != 0, scalar("duration", i32_to_text(m.duration)));
    proof {
        assert(strs(v@) =~= present(m.state, scalar_field("state"@, bool_text(m.state)))
            + present(m.duration != 0, scalar_field("duration"@, i32_text(m.duration))));
    }
    join_strings(&v, " ")
}

/// The text of an alarm window.
pub open spec fn alarm_text(a: AlarmConfig) -> Seq<char> {
    join_with(present(a.begining is Some, message_field("begining"@, cron_text(a.begining.unwrap())))
        + present(a.end is Some, message_field("end"@, cron_text(a.end.unwrap()))), " "@)
}

fn optional_cron(name: &str, c: &Option<CronItem>) -> (r: (bool, String))
    ensures
        r.0 == c is Some,
        c is Some ==> r.1@ == message_field(name@, cron_text(c.unwrap())),
{
    match c {
        Some(item) => (true, message(name, cron_to_text(item))),
        None => (false, String::new()),
    }
}

/// Writes an alarm window as text.
pub fn alarm_to_text(a: &AlarmConfig) -> (r: String)
    ensures
        r@ == alarm_text(*a),
{
    let mut v: Vec<String> = Vec::new();
    let (has_begining, begining) = optional_cron("begining", &a.begining);
    let (has_end, end) = optional_cron("end", &a.end);
    let ghost fb = present(a.begining is Some, message_field("begining"@, cron_text(a.begining.unwrap())));
    let ghost fe = present(a.end is Some, message_field("end"@, cron_text(a.end.unwrap())));
    proof {
        assert(present(has_begining, begining@) == fb);
        assert(present(has_end, end@) == fe);
    }
    push_if(&mut v, has_begining, begining);
    push_if(&mut v, has_end, end);
    proof {
        assert(strs(v@) =~= fb + fe);
    }
    join_strings(&v, " ")
}

/// The text of a cycle.
pub open spec fn cycle_text(c: CycleConfig) -> Seq<char> {
    join_with(present(c.waitingTime != 0, scalar_field("waitingTime"@, i32_text(c.waitingTime)))
        + present(c.runningTime != 0, scalar_field("runningTime"@, i32_text(c.runningTime))), " "@)
}

/// Writes a cycle as text.
pub fn cycle_to_text(c: &CycleConfig) -> (r: String)
    ensures
        r@ == cycle_text(*c),
{
    let mut v: Vec<String> = Vec::new();
    push_if(&mut v, c.waitingTime != 0, scalar("waitingTime", i32_to_text(c.waitingTime)));
    push_if(&mut v, c.runningTime != 0, scalar("runningTime", i32_to_text(c.runningTime)));
    proof {
        assert(strs(v@) =~= present(c.waitingTime != 0, scalar_field("waitingTime"@, i32_text(c.waitingTime)))
            + present(c.runningTime != 0, scalar_field("runningTime"@, i32_text(c.runningTime))));
    }
    join_strings(&v, " ")
}

/// The name of an outlet mode.
pub open spec fn mode_name(m: RelayOutletMode) -> Seq<char> {
    match m {
        RelayOutletMode::MANUAL => "MANUAL"@,
        RelayOutletMode::ALARM => "ALARM"@,
        RelayOutletMode::CYCLE => "CYCLE"@,
        RelayOutletMode::VIRTUAL => "VIRTUAL"@,
    }
}

fn mode_to_text(m: RelayOutletMode) -> (r: String)
    ensures
        r@ == mode_name(m),
{
    match m {
        RelayOutletMode::MANUAL => String::from_str("MANUAL"),
        RelayOutletMode::ALARM => String::from_str("ALARM"),
        RelayOutletMode::CYCLE => String::from_str("CYCLE"),
        RelayOutletMode::VIRTUAL => String::from_str("VIRTUAL"),
    }
}

/// The name of an actor type.
pub open spec fn actor_type_name(t: ActorType) -> Seq<char> {
    match t {
        ActorType::MANUAL_USER_ACTOR => "MANUAL_USER_ACTOR"@,
        ActorType::ENV_CONTROLLER_ACTOR => "ENV_CONTROLLER_ACTOR"@,
    }
}

fn actor_type_to_text(t: ActorType) -> (r: String)
    ensures
        r@ == actor_type_name(t),
{
    match t {
        ActorType::MANUAL_USER_ACTOR => String::from_str("MANUAL_USER_ACTOR"),
        ActorType::ENV_CONTROLLER_ACTOR => String::from_str("ENV_CONTROLLER_ACTOR"),
    }
}

/// The fields of an outlet configuration that are written, in order.
pub open spec fn outlet_fields(c: RelayOutletConfigView) -> Seq<Seq<char>> {
    present(c.mode != RelayOutletMode::MANUAL, scalar_field("mode"@, mode_name(c.mode)))
        + present(c.manual is Some, message_field("manual"@, manual_text(c.manual.unwrap())))
        + present(c.alarm is Some, message_field("alarm"@, alarm_text(c.alarm.unwrap())))
        + present(c.cycle is Some, message_field("cycle"@, cycle_text(c.cycle.unwrap())))
        + present(c.actor_owner_id.len() > 0, scalar_field("actor_owner_id"@, quoted(c.actor_owner_id)))
        + present(c.actor_owner_type != ActorType::MANUAL_USER_ACTOR, scalar_field("actor_owner_type"@, actor_type_name(c.actor_owner_type)))
        + present(c.timestamp != 0, scalar_field("timestamp"@, i32_text(c.timestamp)))
}

/// The text of an outlet configuration.
pub open spec fn outlet_text(c: RelayOutletConfigView) -> Seq<char> {
    join_with(outlet_fields(c), " "@)
}

/// Writes an outlet configuration as text.
pub fn outlet_to_text(c: &RelayOutletConfig) -> (r: String)
    ensures
        r@ == outlet_text(c@),
{
    let ghost cv = c@;
    let mut v: Vec<String> = Vec::new();
    push_if(&mut v, c.mode != RelayOutletMode::MANUAL, scalar("mode", mode_to_text(c.mode)));
    let ghost f0 = strs(v@);
    match &c.manual {
        Some(m) => push_if(&mut v, true, message("manual", manual_to_text(m))),
        None => push_if(&mut v, false, String::new()),
    }
    proof {
        assert(strs(v@) == f0 + present(cv.manual is Some, message_field("manual"@, manual_text(cv.manual.unwrap()))));
    }
    let ghost f1 = strs(v@);
    match &c.alarm {
        Some(a) => push_if(&mut v, true, message("alarm", alarm_to_text(a))),
        None => push_if(&mut v, false, String::new()),
    }
    proof {
        assert(strs(v@) == f1 + present(cv.alarm is Some, message_field("alarm"@, alarm_text(cv.alarm.unwrap()))));
    }
    let ghost f2 = strs(v@);
    match &c.cycle {
        Some(cy) => push_if(&mut v, true, message("cycle", cycle_to_text(cy))),
        None => push_if(&mut v, false, String::new()),
    }
    proof {
        assert(strs(v@) == f2 + present(cv.cycle is Some, message_field("cycle"@, cycle_text(cv.cycle.unwrap()))));
    }
    push_if(&mut v, c.actor_owner_id.as_str().unicode_len() > 0, scalar("actor_owner_id", quote(c.actor_owner_id.as_str())));
    push_if(&mut v, c.actor_owner_type != ActorType::MANUAL_USER_ACTOR, scalar("actor_owner_type", actor_type_to_text(c.actor_owner_type)));
    push_if(&mut v, c.timestamp != 0, scalar("timestamp", i32_to_text(c.timestamp)));
    proof {
        assert(strs(v@) =~= outlet_fields(cv));
    }
    join_strings(&v, " ")
}

} // verus!
