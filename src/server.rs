//! The line protocol of the command server: requests `COMMAND:ARG1,ARG2,...`
//! are parsed and dispatched against the registry, and each answer is the
//! text sent back to the caller.

use vstd::prelude::*;
use vstd::string::*;

use crate::db::{monitor_with_id, Db};
use crate::monitors::Monitor;
use crate::power::{mode_of_vcp, PowerMode};
use crate::text::{
    decimal_of, from_utf8_lossy, i32_to_decimal, lemma_prefix_before, parse_i32, parsed_i32,
    prefix_before, push_char, utf8_lossy,
};

verus! {

/// The protocol's character for a power mode: `1` for off, `2` for on.
pub open spec fn power_char(mode: PowerMode) -> char {
    match mode {
        PowerMode::Off => '1',
        PowerMode::On => '2',
    }
}

/// The power mode that a protocol power code names, if any.
pub open spec fn mode_of_power_code(code: Seq<char>) -> Option<PowerMode> {
    if code == seq!['1'] {
        Some(PowerMode::Off)
    } else if code == seq!['2'] {
        Some(PowerMode::On)
    } else {
        None
    }
}

pub fn encode_power_mode(mode: PowerMode) -> (r: char)
    ensures
        r == power_char(mode),
{
    match mode {
        PowerMode::Off => '1',
        PowerMode::On => '2',
    }
}

pub fn decode_power_mode(value: &str) -> (r: Option<PowerMode>)
    ensures
        r == mode_of_power_code(value@),
{
    if value.unicode_len() != 1 {
        return None;
    }
    let c = value.get_char(0);
    if c == '1' {
        proof {
            assert(value@ =~= seq!['1']);
        }
        Some(PowerMode::Off)
    } else if c == '2' {
        proof {
            assert(value@ =~= seq!['2']);
        }
        Some(PowerMode::On)
    } else {
        proof {
            assert(value@ != seq!['1'] && value@ != seq!['2']) by {
                assert(value@[0] == c);
            }
        }
        None
    }
}

/// Each power code names a mode whose code it is, and each mode's code
/// names that mode again.
pub proof fn lemma_power_code_round_trip(code: Seq<char>, mode: PowerMode)
    ensures
        mode_of_power_code(code) matches Some(m) ==> seq![power_char(m)] == code,
        mode_of_power_code(seq![power_char(mode)]) == Some(mode),
{
    let on = seq!['2'];
    let off = seq!['1'];
    assert(on != off) by {
        assert(on[0] != off[0]);
    }
    match mode {
        PowerMode::Off => assert(seq![power_char(mode)] =~= off),
        PowerMode::On => assert(seq![power_char(mode)] =~= on),
    }
}

/// The pieces of `s` between the separators, in order; a string without
/// separators is one piece, and the empty string is one empty piece.
pub open spec fn split_on(s: Seq<char>, sep: char) -> Seq<Seq<char>>
    decreases s.len(),
{
    if s.len() == 0 {
        seq![Seq::empty()]
    } else {
        let init = split_on(s.drop_last(), sep);
        if s.last() == sep {
            init.push(Seq::empty())
        } else {
            init.update(init.len() - 1, init.last().push(s.last()))
        }
    }
}

proof fn lemma_split_on_len(s: Seq<char>, sep: char)
    ensures
        split_on(s, sep).len() >= 1,
    decreases s.len(),
{
    if s.len() > 0 {
        lemma_split_on_len(s.drop_last(), sep);
    }
}

/// A request's command and arguments: the text before the first `:`, and
/// the text after it split at each `,`. No `:` means no request.
pub open spec fn parsed_message(s: Seq<char>) -> Option<(Seq<char>, Seq<Seq<char>>)> {
    let command = prefix_before(s, ':');
    if command.len() < s.len() {
        Some((command, split_on(s.skip(command.len() as int + 1), ',')))
    } else {
        None
    }
}

/// The views of a sequence of string slices.
pub open spec fn views(v: Seq<&str>) -> Seq<Seq<char>> {
    v.map_values(|a: &str| a@)
}

/// Splits `COMMAND:ARG1,ARG2,...` into the command and its arguments.
/// Characters are read by position, at a cost quadratic in the length:
/// requests are a datagram of a few bytes.
pub fn parse_message(message: &str) -> (r: Option<(&str, Vec<&str>)>)
    ensures
        match r {
            Some(p) => parsed_message(message@) == Some((p.0@, views(p.1@))),
            None => parsed_message(message@) is None,
        },
{
    let n = message.unicode_len();
    let mut k: usize = 0;
    while k < n && message.get_char(k) != ':'
        invariant
            k <= n == message@.len(),
            forall|j: int| 0 <= j < k ==> message@[j] != ':',
        decreases n - k,
    {
        k = k + 1;
    }
    proof {
        lemma_prefix_before(message@, ':', k as int);
    }
    if k == n {
        return None;
    }
    let command = message.substring_char(0, k);
    let ghost rest = message@.skip(k + 1);
    let mut args: Vec<&str> = Vec::new();
    let mut start: usize = k + 1;
    let mut i: usize = k + 1;
    proof {
        assert(message@.subrange(k + 1, k + 1) =~= Seq::<char>::empty());
        assert(split_on(message@.subrange(k + 1, k + 1), ',') =~= seq![Seq::<char>::empty()]);
        assert(views(args@).push(message@.subrange(start as int, i as int)) =~= seq![Seq::<char>::empty()]);
    }
    while i < n
        invariant
            n == message@.len(),
            k + 1 <= start <= i <= n,
            views(args@).push(message@.subrange(start as int, i as int)) == split_on(
                message@.subrange(k + 1, i as int),
                ',',
            ),
        decreases n - i,
    {
        let ghost prev = message@.subrange(k + 1, i as int);
        let ghost next = message@.subrange(k + 1, i + 1);
        proof {
            assert(next.drop_last() =~= prev);
            assert(next.last() == message@[i as int]);
            lemma_split_on_len(prev, ',');
        }
        if message.get_char(i) == ',' {
            let piece = message.substring_char(start, i);
            args.push(piece);
            start = i + 1;
            proof {
                assert(views(args@) =~= views(args@.drop_last()).push(piece@));
                assert(message@.subrange(start as int, i + 1) =~= Seq::<char>::empty());
            }
        } else {
            proof {
                assert(message@.subrange(start as int, i + 1) =~= message@.subrange(
                    start as int,
                    i as int,
                ).push(message@[i as int]));
            }
        }
        i = i + 1;
    }
    let last = message.substring_char(start, n);
    args.push(last);
    proof {
        assert(message@.subrange(k + 1, n as int) =~= rest);
        assert(views(args@) =~= views(args@.drop_last()).push(last@));
    }
    Some((command, args))
}

/// Why a request was answered with an error.
#[derive(Copy, Clone, Debug, PartialEq, Eq, Structural)]
pub enum ServerError {
    /// `set` was given this many arguments instead of two.
    ArgumentCount(usize),
    /// The monitor id of `set` is not an integer.
    InvalidId,
    /// No monitor has this id.
    UnknownMonitor(i32),
    /// The power code of `set` is neither `1` nor `2`.
    InvalidPowerMode,
    /// The power mode of the monitor with this id could not be read, or it
    /// reported a value that names no mode.
    UnreadablePowerMode(i32),
    /// The monitor did not accept the power-mode write.
    WriteFailed,
}

/// What the server does with one request.
#[derive(Copy, Clone, Debug, PartialEq, Eq, Structural)]
pub enum Step {
    /// The request is malformed or names no command: it is logged and gets
    /// no answer.
    Ignore,
    /// The request is answered with an error.
    Fail(ServerError),
    /// Every monitor's power mode is read, in registry order, and `list`
    /// makes the answer.
    List,
    /// The power mode is written to the monitor with this handle, and
    /// `set_reply` makes the answer.
    SetPowerMode { handle: usize, mode: PowerMode },
    /// The monitors are enumerated again, and `refresh` stores them and makes
    /// the answer.
    Refresh,
}

/// The target of a `set` request: the handle of the monitor with the given
/// id and the mode that the power code names, or why there is none. The
/// checks come in this order: argument count, id, monitor, power code.
pub open spec fn set_target(ms: Seq<Monitor>, args: Seq<Seq<char>>) -> Result<
    (usize, PowerMode),
    ServerError,
> {
    if args.len() != 2 {
        Err(ServerError::ArgumentCount(args.len() as usize))
    } else {
        match parsed_i32(args[0]) {
            None => Err(ServerError::InvalidId),
            Some(id) => match monitor_with_id(ms, id) {
                None => Err(ServerError::UnknownMonitor(id)),
                Some(m) => match mode_of_power_code(args[1]) {
                    None => Err(ServerError::InvalidPowerMode),
                    Some(mode) => Ok((m.handle_spec(), mode)),
                },
            },
        }
    }
}

/// What the server does with request text `msg` while the registry holds `ms`.
pub open spec fn step_of(ms: Seq<Monitor>, msg: Seq<char>) -> Step {
    match parsed_message(msg) {
        None => Step::Ignore,
        Some((command, args)) => if command == "list"@ {
            Step::List
        } else if command == "set"@ {
            match set_target(ms, args) {
                Ok((handle, mode)) => Step::SetPowerMode { handle, mode },
                Err(e) => Step::Fail(e),
            }
        } else if command == "refresh"@ {
            Step::Refresh
        } else {
            Step::Ignore
        },
    }
}

/// Whether two string slices hold the same text.
pub fn str_equals(a: &str, b: &str) -> (r: bool)
    ensures
        r == (a@ == b@),
{
    let n = a.unicode_len();
    if n != b.unicode_len() {
        return false;
    }
    let mut i: usize = 0;
    while i < n
        invariant
            i <= n == a@.len() == b@.len(),
            forall|j: int| 0 <= j < i ==> a@[j] == b@[j],
        decreases n - i,
    {
        if a.get_char(i) != b.get_char(i) {
            return false;
        }
        i = i + 1;
    }
    proof {
        assert(a@ =~= b@);
    }
    true
}

/// Validates the arguments of `set`: a monitor id of the registry and a
/// power code. The result is the monitor's handle and the mode to write.
pub fn set_power_mode(db: &Db, args: &Vec<&str>) -> (r: Result<(usize, PowerMode), ServerError>)
    ensures
        r == set_target(db@, views(args@)),
{
    if args.len() != 2 {
        return Err(ServerError::ArgumentCount(args.len()));
    }
    let id = match parse_i32(args[0]) {
        Some(id) => id,
        None => {
            return Err(ServerError::InvalidId);
        },
    };
    let monitor = match db.get(id) {
        Some(m) => m,
        None => {
            return Err(ServerError::UnknownMonitor(id));
        },
    };
    match decode_power_mode(args[1]) {
        Some(mode) => Ok((monitor.handle(), mode)),
        None => Err(ServerError::InvalidPowerMode),
    }
}

/// Decides what to do with one request's text.
pub fn handle_message(db: &Db, message: &str) -> (r: Step)
    ensures
        r == step_of(db@, message@),
{
    match parse_message(message) {
        None => Step::Ignore,
        Some((command, args)) => {
            if str_equals(command, "list") {
                Step::List
            } else if str_equals(command, "set") {
                match set_power_mode(db, &args) {
                    Ok((handle, mode)) => Step::SetPowerMode { handle, mode },
                    Err(e) => Step::Fail(e),
                }
            } else if str_equals(command, "refresh") {
                Step::Refresh
            } else {
                Step::Ignore
            }
        },
    }
}

/// Decides what to do with one received datagram, read as UTF-8 text in
/// which invalid sequences are replaced.
pub fn handle_datagram(db: &Db, bytes: &[u8]) -> (r: Step)
    ensures
        r == step_of(db@, utf8_lossy(bytes@)),
{
    let message = from_utf8_lossy(bytes);
    handle_message(db, message.as_str())
}

/// The mode that a read of a monitor's power-mode feature gives: `None`
/// where the read failed or the value names no mode.
pub open spec fn read_mode(value: Option<u32>) -> Option<PowerMode> {
    match value {
        Some(v) => mode_of_vcp(v),
        None => None,
    }
}

/// The line of the `list` answer for one monitor: `id;name;code`.
pub open spec fn list_line(m: Monitor, mode: PowerMode) -> Seq<char> {
    decimal_of(m.id_spec() as int) + seq![';'] + m.name_spec() + seq![';', power_char(mode), '\n']
}

/// The lines of the `list` answer, one per monitor, from the values read.
pub open spec fn list_lines(ms: Seq<Monitor>, values: Seq<Option<u32>>) -> Seq<Seq<char>> {
    Seq::new(ms.len(), |i: int| list_line(ms[i], read_mode(values[i])->0))
}

/// Whether `i` is the first monitor whose power mode could not be read.
pub open spec fn first_unreadable(values: Seq<Option<u32>>, i: int) -> bool {
    &&& 0 <= i < values.len()
    &&& read_mode(values[i]) is None
    &&& forall|j: int| 0 <= j < i ==> read_mode(#[trigger] values[j]) is Some
}

/// The answer to `list`, given the power-mode value read from each monitor
/// of the registry, in order: the monitors' lines, or an error naming the
/// first monitor whose mode could not be read.
pub fn list(db: &Db, values: &Vec<Option<u32>>) -> (r: Result<String, ServerError>)
    requires
        values@.len() == db@.len(),
    ensures
        r is Ok <==> forall|i: int| 0 <= i < values@.len() ==> read_mode(#[trigger] values@[i]) is Some,
        r matches Ok(text) ==> text@ == list_lines(db@, values@).flatten(),
        r matches Err(e) ==> exists|i: int|
            first_unreadable(values@, i) && e == ServerError::UnreadablePowerMode(
                (#[trigger] db@[i]).id_spec(),
            ),
{
    let ghost lines = list_lines(db@, values@);
    let mut text = String::new();
    let mut i: usize = 0;
    proof {
        assert(lines.take(0) =~= Seq::<Seq<char>>::empty());
    }
    while i < db.len()
        invariant
            i <= db@.len() == values@.len(),
            lines == list_lines(db@, values@),
            forall|j: int| 0 <= j < i ==> read_mode(#[trigger] values@[j]) is Some,
            text@ == lines.take(i as int).flatten(),
        decreases db@.len() - i,
    {
        let monitor = db.monitor(i);
        let mode = match values[i] {
            Some(v) => PowerMode::from_vcp_code(v),
            None => None,
        };
        let mode = match mode {
            Some(mode) => mode,
            None => {
                proof {
                    assert(first_unreadable(values@, i as int));
                }
                return Err(ServerError::UnreadablePowerMode(monitor.id()));
            },
        };
        let ghost before = text@;
        let id_text = i32_to_decimal(monitor.id());
        text.append(id_text.as_str());
        push_char(&mut text, ';');
        text.append(monitor.name());
        push_char(&mut text, ';');
        push_char(&mut text, encode_power_mode(mode));
        push_char(&mut text, '\n');
        proof {
            assert(lines[i as int] == list_line(db@[i as int], mode));
            assert(text@ =~= before + lines[i as int]);
            assert(lines.take(i + 1) =~= lines.take(i as int).push(lines[i as int]));
            lines.take(i as int).lemma_flatten_push(lines[i as int]);
        }
        i = i + 1;
    }
    proof {
        assert(lines.take(i as int) =~= lines);
    }
    Ok(text)
}

/// The answer once the power mode has been written: `ok`, or an error where
/// the monitor did not accept the write.
pub fn set_reply(written: bool) -> (r: Result<String, ServerError>)
    ensures
        written ==> (r matches Ok(t) && t@ == "ok"@),
        !written ==> r == Err::<String, ServerError>(ServerError::WriteFailed),
{
    if written {
        Ok(String::from_str("ok"))
    } else {
        Err(ServerError::WriteFailed)
    }
}

/// Stores a new enumeration in the registry, replacing the old one, and
/// answers `ok`.
pub fn refresh(db: &mut Db, monitors: Vec<Monitor>) -> (r: String)
    ensures
        final(db)@ == monitors@,
        r@ == "ok"@,
{
    db.refresh(monitors);
    String::from_str("ok")
}

/// The bytes sent back for a request's result: its text, or `error`.
pub fn response(result: &Result<String, ServerError>) -> (r: String)
    ensures
        match result {
            Ok(t) => r@ == t@,
            Err(_) => r@ == "error"@,
        },
{
    match result {
        Ok(t) => t.clone(),
        Err(_) => String::from_str("error"),
    }
}

/// A `refresh` request is dispatched as a refresh whatever the registry
/// holds, and once the new enumeration `fresh` is stored, a `list` request
/// is dispatched as a listing whose answer has exactly one line per monitor
/// of `fresh`, in order.
pub proof fn lemma_refresh_then_list(
    ms: Seq<Monitor>,
    msg: Seq<char>,
    fresh: Seq<Monitor>,
    values: Seq<Option<u32>>,
)
    requires
        parsed_message(msg) matches Some(p) && p.0 == "refresh"@,
        values.len() == fresh.len(),
    ensures
        step_of(ms, msg) == Step::Refresh,
        step_of(fresh, "list:"@) == Step::List,
        list_lines(fresh, values).len() == fresh.len(),
        forall|i: int|
            0 <= i < fresh.len() ==> #[trigger] list_lines(fresh, values)[i] == list_line(
                fresh[i],
                read_mode(values[i])->0,
            ),
{
    reveal_strlit("refresh");
    reveal_strlit("list");
    reveal_strlit("set");
    reveal_strlit("list:");
    assert("refresh"@.len() != "list"@.len());
    assert("refresh"@.len() != "set"@.len());
    let l = "list:"@;
    lemma_prefix_before(l, ':', 4);
    assert(l.take(4) =~= "list"@);
}

/// A `set` request never replaces the registry: it is dispatched as a write
/// or answered with an error, and both depend only on the registry and the
/// request. Issued again, it is therefore decided the same way.
pub proof fn lemma_set_repeatable(ms: Seq<Monitor>, msg: Seq<char>)
    requires
        parsed_message(msg) matches Some(p) && p.0 == "set"@,
    ensures
        step_of(ms, msg) matches Step::SetPowerMode { .. } || step_of(ms, msg) matches Step::Fail(
            _,
        ),
{
    reveal_strlit("list");
    reveal_strlit("set");
    assert("set"@.len() != "list"@.len());
}

} // verus!
