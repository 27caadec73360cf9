//! The rules of the printer bot: what a message asks for, who may print and
//! how often, and the print job that a message becomes.

use std::collections::HashMap;
use vstd::prelude::*;
use vstd::string::StringSliceAdditionalSpecFns;
use vstd::utf8::encode_utf8;
use crate::format::{FmtStr, Style};
use crate::message::{Message, Sender};
use crate::printer::{finish_job, text_job_bytes, write_and_cut};
use crate::settings::Named;
use crate::text::{is_text, transliterate, transliterated};

verus! {

broadcast use vstd::std_specs::hash::group_hash_axioms;

/// Nanoseconds in a minute.
pub const NANOS_PER_MINUTE: u128 = 60_000_000_000;

/// What a message asks the bot to do.
#[derive(Clone, Debug, PartialEq, Eq)]
pub enum CommandKind {
    /// Print the given string.
    Print(String),
}

/// A request together with its sender.
#[derive(Clone, Debug, PartialEq, Eq)]
pub struct Command {
    /// User that sent the command.
    pub source: Sender,
    /// Command sent by the user.
    pub kind: CommandKind,
}

/// What the users of a role may print.
#[derive(Clone, Debug, PartialEq, Eq)]
pub struct Role {
    pub name: String,
    /// The longest text they may print, in bytes.
    pub max_print_len: usize,
    /// How long they wait from one print to the next.
    pub minutes_between_prints: u32,
}

impl Named for Role {
    open spec fn name_view(&self) -> Seq<char> {
        self.name@
    }

    fn name(&self) -> (r: &String) {
        &self.name
    }
}

/// When each user last printed. Times are nanoseconds on a clock that the
/// caller keeps; the view maps a user's number to the time of the last
/// print.
#[derive(Debug)]
pub struct History {
    last_print: HashMap<i64, u128>,
}

impl View for History {
    type V = Map<i64, u128>;

    closed spec fn view(&self) -> Map<i64, u128> {
        self.last_print@
    }
}

/// The time from `then` to `now`, and none at all where the clock went
/// backwards.
pub open spec fn time_between(then: u128, now: u128) -> u128 {
    if now >= then {
        (now - then) as u128
    } else {
        0
    }
}

/// The time since the user last printed, for a user who has.
pub open spec fn time_since_print(history: Map<i64, u128>, id: i64, now: u128) -> Option<u128> {
    if history.contains_key(id) {
        Some(time_between(history[id], now))
    } else {
        None
    }
}

impl History {
    /// A history in which nobody has printed.
    pub fn new() -> (r: History)
        ensures
            r@ == Map::<i64, u128>::empty(),
    {
        History { last_print: HashMap::new() }
    }

    /// The time passed at `now` since the given user last printed something.
    pub fn duration_since_last_print(&self, id: i64, now: u128) -> (r: Option<u128>)
        ensures
            r == time_since_print(self@, id, now),
    {
        match self.last_print.get(&id) {
            Some(then) => {
                if now >= *then {
                    Some(now - *then)
                } else {
                    Some(0)
                }
            },
            None => None,
        }
    }

    /// Records that the given user printed something at `now`.
    pub fn add_print(&mut self, id: i64, now: u128)
        ensures
            final(self)@ == old(self)@.insert(id, now),
    {
        self.last_print.insert(id, now);
    }
}

impl Default for History {
    fn default() -> (r: History)
        ensures
            r@ == Map::<i64, u128>::empty(),
    {
        History::new()
    }
}

/// What a text asks for: the command that starts a chat asks for nothing,
/// every other text is to be printed.
pub open spec fn is_print_request(data: Seq<char>) -> bool {
    data != "/start"@
}

/// The command that a message carries: its text, to be printed, from its
/// sender. A message without text carries none, nor does the command that
/// starts a chat.
pub fn message_to_command(message: Message) -> (r: Option<Command>)
    ensures
        r is Some <==> message.text is Some && is_print_request(message.text->0@),
        r matches Some(command) ==> command.source == message.from && command.kind
            == CommandKind::Print(message.text->0),
{
    match message.text {
        Some(data) => {
            if is_text(&data, "/start") {
                None
            } else {
                Some(Command { source: message.from, kind: CommandKind::Print(data) })
            }
        },
        None => None,
    }
}

/// The role behind an optional reference.
pub open spec fn role_of(role: Option<&Role>) -> Option<Role> {
    match role {
        Some(role) => Some(*role),
        None => None,
    }
}

/// Whether a text of `len` bytes is short enough for a sender with this
/// role. For a sender without a role none is.
pub open spec fn length_allowed(role: Option<Role>, len: usize) -> bool {
    match role {
        Some(role) => len <= role.max_print_len,
        None => false,
    }
}

/// Whether a sender with this role may print, the time since the sender's
/// last print being `since_last`: the role's waiting time must have passed,
/// and a sender who never printed need not wait. A sender without a role
/// may not print.
pub open spec fn printing_allowed(role: Option<Role>, since_last: Option<u128>) -> bool {
    match role {
        Some(role) => match since_last {
            Some(passed) => role.minutes_between_prints * NANOS_PER_MINUTE <= passed,
            None => true,
        },
        None => false,
    }
}

/// Compares the message length with the permissions.
pub fn is_print_length_allowed(role: Option<&Role>, len: usize) -> (r: bool)
    ensures
        r == length_allowed(role_of(role), len),
{
    match role {
        Some(role) => len <= role.max_print_len,
        None => false,
    }
}

/// Checks whether a sender is allowed to print right now.
pub fn is_printing_allowed(role: Option<&Role>, since_last: Option<u128>) -> (r: bool)
    ensures
        r == printing_allowed(role_of(role), since_last),
{
    match role {
        Some(role) => {
            let wait: u128 = NANOS_PER_MINUTE * (role.minutes_between_prints as u128);
            match since_last {
                Some(passed) => wait <= passed,
                None => true,
            }
        },
        None => false,
    }
}

/// What becomes of a request to print.
#[derive(Clone, Copy, Debug, PartialEq, Eq, Structural)]
pub enum Verdict {
    /// The text is printed.
    Print,
    /// The text is too long for the sender.
    TooLong,
    /// The sender may not print, or not yet.
    NotNow,
}

/// What becomes of a request to print a text of `len` bytes: whether the
/// sender may print now is asked first, the length second.
pub open spec fn verdict_for(role: Option<Role>, since_last: Option<u128>, len: usize) -> Verdict {
    if !printing_allowed(role, since_last) {
        Verdict::NotNow
    } else if !length_allowed(role, len) {
        Verdict::TooLong
    } else {
        Verdict::Print
    }
}

/// Decides on a request to print a text of `len` bytes.
pub fn handle_print_cmd(role: Option<&Role>, since_last: Option<u128>, len: usize) -> (r: Verdict)
    ensures
        r == verdict_for(role_of(role), since_last, len),
{
    if is_printing_allowed(role, since_last) {
        if is_print_length_allowed(role, len) {
            Verdict::Print
        } else {
            Verdict::TooLong
        }
    } else {
        Verdict::NotNow
    }
}

impl Verdict {
    /// The answer that tells the sender of the verdict.
    pub open spec fn answer(self) -> Seq<char> {
        match self {
            Verdict::Print => "🖨️✅"@,
            Verdict::TooLong => "🖨️❌ That message is too long!"@,
            Verdict::NotNow => "🖨️❌ You may not print now!"@,
        }
    }

    /// The answer that tells the sender of the verdict.
    pub fn reply(self) -> (r: &'static str)
        ensures
            r@ == self.answer(),
    {
        match self {
            Verdict::Print => "🖨️✅",
            Verdict::TooLong => "🖨️❌ That message is too long!",
            Verdict::NotNow => "🖨️❌ You may not print now!",
        }
    }
}

/// The sender's name as it heads a printed message: first name and, where
/// there is one, last name, with a blank before, between and after.
pub open spec fn name_tag(first: Seq<char>, last: Option<Seq<char>>) -> Seq<char> {
    match last {
        Some(last) => " "@ + first + " "@ + last + " "@,
        None => " "@ + first + " "@,
    }
}

/// A printed message: the sender's name white on black, a colon, the text
/// in ASCII, a line break.
pub open spec fn message_bytes(first: Seq<char>, last: Option<Seq<char>>, text: Seq<char>) -> Seq<
    u8,
> {
    Style::plain().reverse().wrap(encode_utf8(name_tag(first, last))) + encode_utf8(
        ": "@ + transliterated(text) + "\n"@,
    )
}

/// The text of an optional string.
pub open spec fn text_of(string: Option<String>) -> Option<Seq<char>> {
    match string {
        Some(string) => Some(string@),
        None => None,
    }
}

/// The sender's name as it heads a printed message.
pub fn sender_tag(source: &Sender) -> (r: String)
    ensures
        r@ == name_tag(source.first_name@, text_of(source.last_name)),
{
    let mut name = String::from_str(" ");
    name.append(source.first_name.as_str());
    name.append(" ");
    match &source.last_name {
        Some(last_name) => {
            name.append(last_name.as_str());
            name.append(" ");
        },
        None => {},
    }
    name
}

/// The job that prints a message under its sender's name and cuts the
/// paper, given the text in ASCII.
pub fn tagged_job(source: &Sender, ascii: &str) -> (r: Vec<u8>)
    ensures
        r@ == text_job_bytes(
            Style::plain().reverse().wrap(
                encode_utf8(name_tag(source.first_name@, text_of(source.last_name))),
            ) + encode_utf8(": "@ + ascii@ + "\n"@),
        ),
{
    let name = sender_tag(source);
    let mut out = name.as_str().reverse().render();
    let mut rest = String::from_str(": ");
    rest.append(ascii);
    rest.append("\n");
    out.extend_from_slice(rest.as_str().as_bytes());
    finish_job(&mut out);
    out
}

/// The job that prints a message under its sender's name and cuts the
/// paper.
pub fn print_message(source: &Sender, text: &str) -> (r: Vec<u8>)
    ensures
        r@ == text_job_bytes(
            message_bytes(source.first_name@, text_of(source.last_name), text@),
        ),
{
    let ascii = transliterate(text);
    tagged_job(source, ascii.as_str())
}

/// The job that announces on paper that the bot is running.
pub fn print_startup_message() -> (r: Vec<u8>)
    ensures
        r@ == text_job_bytes("*** Printer-bot started ***\n".spec_bytes()),
{
    write_and_cut("*** Printer-bot started ***\n")
}

} // verus!
