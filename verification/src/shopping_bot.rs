//! The rules of the shopping-list bot: what a message asks for, who may ask
//! for it, and what the bot answers.

use vstd::prelude::*;
use crate::message::{Message, Sender};
use crate::settings::Role;
use crate::storage::{category_key, category_keys, Category};
use crate::text::{
    is_text, lines, lowercased, spec_starts_with, split_lines, starts_with, texts, to_lowercase,
};

verus! {

/// What a message asks the bot to do.
#[derive(Clone, Debug, PartialEq, Eq)]
pub enum CommandKind {
    /// Put these items, one to a line, on the list.
    AddItems(String),
    /// Show the list.
    List,
    /// Show the categories.
    ListCategories,
    /// Print the list.
    Print,
}

/// A request together with its sender.
#[derive(Clone, Debug, PartialEq, Eq)]
pub struct Command {
    pub source: Sender,
    pub kind: CommandKind,
}

/// The model of a [`CommandKind`]: the same, with the text as a sequence of
/// characters.
pub enum Request {
    AddItems(Seq<char>),
    List,
    ListCategories,
    Print,
}

impl View for CommandKind {
    type V = Request;

    open spec fn view(&self) -> Request {
        match self {
            CommandKind::AddItems(items) => Request::AddItems(items@),
            CommandKind::List => Request::List,
            CommandKind::ListCategories => Request::ListCategories,
            CommandKind::Print => Request::Print,
        }
    }
}

/// What a text asks for, given the text and its lowercase form. The three
/// commands are told by the lowercase form; any other text is a list of items
/// unless it begins with a slash, in which case it asks for nothing.
pub open spec fn request_of(lower: Seq<char>, data: Seq<char>) -> Option<Request> {
    if lower == "/print"@ {
        Some(Request::Print)
    } else if lower == "/list"@ {
        Some(Request::List)
    } else if lower == "/categories"@ {
        Some(Request::ListCategories)
    } else if !spec_starts_with(data, '/') {
        Some(Request::AddItems(data))
    } else {
        None
    }
}

/// The view of an optional command kind.
pub open spec fn kind_view(kind: Option<CommandKind>) -> Option<Request> {
    match kind {
        Some(k) => Some(k@),
        None => None,
    }
}

/// What `data` asks for, where `lower` is its lowercase form.
pub fn text_to_kind(lower: &String, data: &String) -> (r: Option<CommandKind>)
    ensures
        kind_view(r) == request_of(lower@, data@),
{
    if is_text(lower, "/print") {
        Some(CommandKind::Print)
    } else if is_text(lower, "/list") {
        Some(CommandKind::List)
    } else if is_text(lower, "/categories") {
        Some(CommandKind::ListCategories)
    } else if !starts_with(data.as_str(), '/') {
        Some(CommandKind::AddItems(data.clone()))
    } else {
        None
    }
}

/// The command that a message carries: what its text asks for, from its
/// sender. A message without text carries none.
pub fn message_to_command(message: Message) -> (r: Option<Command>)
    ensures
        r is Some <==> message.text is Some && request_of(
            lowercased(message.text->0@),
            message.text->0@,
        ) is Some,
        r matches Some(command) ==> command.source == message.from && Some(command.kind@)
            == request_of(lowercased(message.text->0@), message.text->0@),
{
    let kind = match &message.text {
        Some(data) => {
            let lower = to_lowercase(data.as_str());
            text_to_kind(&lower, data)
        },
        None => None,
    };
    match kind {
        Some(kind) => Some(Command { source: message.from, kind }),
        None => None,
    }
}

/// What the bot does about a request.
#[derive(Debug)]
pub enum Action {
    /// Answer with this text and do nothing else.
    Reply(String),
    /// Read the items and answer with their listing.
    ListItems,
    /// Read the categories and answer with their listing.
    ListCategories,
    /// Add each of these items to the list and answer for each.
    AddItems(Vec<String>),
}

/// The model of an [`Action`].
pub enum Step {
    Reply(Seq<char>),
    ListItems,
    ListCategories,
    AddItems(Seq<Seq<char>>),
}

impl View for Action {
    type V = Step;

    open spec fn view(&self) -> Step {
        match self {
            Action::Reply(text) => Step::Reply(text@),
            Action::ListItems => Step::ListItems,
            Action::ListCategories => Step::ListCategories,
            Action::AddItems(items) => Step::AddItems(texts(items@)),
        }
    }
}

/// Whether a sender with this role, or with none, may make the request:
/// listing takes the right to read, adding the right to write, printing the
/// right to print. A sender without a role may do nothing.
pub open spec fn permits(role: Option<Role>, request: Request) -> bool {
    match role {
        Some(role) => match request {
            Request::List | Request::ListCategories => role.read,
            Request::AddItems(_) => role.write,
            Request::Print => role.print,
        },
        None => false,
    }
}

/// What the bot does about a request from a sender with this role: it
/// refuses what the role does not permit; it has no printing yet and says
/// so; it lists; or it adds the items, one for each line of the text.
pub open spec fn step_for(role: Option<Role>, request: Request) -> Step {
    if !permits(role, request) {
        Step::Reply("*missing permissions*"@)
    } else {
        match request {
            Request::List => Step::ListItems,
            Request::ListCategories => Step::ListCategories,
            Request::Print => Step::Reply("Printing unimplemented"@),
            Request::AddItems(text) => Step::AddItems(split_lines(text)),
        }
    }
}

/// The role behind an optional reference.
pub open spec fn role_of(role: Option<&Role>) -> Option<Role> {
    match role {
        Some(role) => Some(*role),
        None => None,
    }
}

/// Whether a sender with this role, or with none, may make the request.
pub fn is_permitted(role: Option<&Role>, kind: &CommandKind) -> (r: bool)
    ensures
        r == permits(role_of(role), kind@),
{
    match role {
        Some(role) => match kind {
            CommandKind::List | CommandKind::ListCategories => role.read,
            CommandKind::AddItems(_) => role.write,
            CommandKind::Print => role.print,
        },
        None => false,
    }
}

/// What the bot does about a request from a sender with this role.
pub fn handle(role: Option<&Role>, kind: &CommandKind) -> (r: Action)
    ensures
        r@ == step_for(role_of(role), kind@),
{
    if !is_permitted(role, kind) {
        return Action::Reply(String::from_str("*missing permissions*"));
    }
    match kind {
        CommandKind::List => Action::ListItems,
        CommandKind::ListCategories => Action::ListCategories,
        CommandKind::Print => Action::Reply(String::from_str("Printing unimplemented")),
        CommandKind::AddItems(text) => Action::AddItems(lines(text.as_str())),
    }
}

/// One item as a line of the listing.
pub open spec fn item_line(item: Seq<char>) -> Seq<char> {
    "- "@ + item + "\n"@
}

/// The listing of the items: a line for each, in order.
pub open spec fn items_listing(items: Seq<Seq<char>>) -> Seq<char>
    decreases items.len(),
{
    if items.len() == 0 {
        Seq::empty()
    } else {
        items_listing(items.drop_last()) + item_line(items.last())
    }
}

/// One category as a line of the listing: its icon, then its name.
pub open spec fn category_line(category: (Seq<char>, char)) -> Seq<char> {
    seq![category.1] + " "@ + category.0 + "\n"@
}

/// The listing of the categories: a line for each, in order.
pub open spec fn categories_listing(categories: Seq<(Seq<char>, char)>) -> Seq<char>
    decreases categories.len(),
{
    if categories.len() == 0 {
        Seq::empty()
    } else {
        categories_listing(categories.drop_last()) + category_line(categories.last())
    }
}

/// The listing of the items.
pub fn list_items(items: &Vec<String>) -> (r: String)
    ensures
        r@ == items_listing(texts(items@)),
{
    let mut out = String::new();
    let mut i: usize = 0;
    while i < items.len()
        invariant
            i <= items.len(),
            out@ == items_listing(texts(items@).take(i as int)),
        decreases items.len() - i,
    {
        out.append("- ");
        out.append(items[i].as_str());
        out.append("\n");
        proof {
            let shown = texts(items@).take(i + 1);
            assert(shown.drop_last() =~= texts(items@).take(i as int));
            assert(shown.last() == items@[i as int]@);
        }
        i += 1;
    }
    assert(texts(items@).take(i as int) =~= texts(items@));
    out
}

/// The listing of the categories.
pub fn list_categories(categories: &Vec<Category>) -> (r: String)
    ensures
        r@ == categories_listing(category_keys(categories@)),
{
    let mut out = String::new();
    let mut i: usize = 0;
    while i < categories.len()
        invariant
            i <= categories.len(),
            out@ == categories_listing(category_keys(categories@).take(i as int)),
        decreases categories.len() - i,
    {
        let ghost before = out@;
        out.push(categories[i].icon);
        out.append(" ");
        out.append(categories[i].name.as_str());
        out.append("\n");
        proof {
            let shown = category_keys(categories@).take(i + 1);
            assert(shown.drop_last() =~= category_keys(categories@).take(i as int));
            assert(shown.last() == category_key(categories@[i as int]));
            assert(out@ =~= before + category_line(shown.last()));
        }
        i += 1;
    }
    assert(category_keys(categories@).take(i as int) =~= category_keys(categories@));
    out
}

/// The answer to a request for a listing, given the listing or `None` where
/// it could not be read: the listing itself, or a note where there is none
/// or it is empty.
pub open spec fn listing_answer(listing: Option<Seq<char>>) -> Seq<char> {
    match listing {
        Some(text) => if text.len() == 0 {
            "*empty*"@
        } else {
            text
        },
        None => "*empty*"@,
    }
}

/// The answer to a request for a listing. It is never empty.
pub fn listing_reply(listing: Option<String>) -> (r: String)
    ensures
        r@ == listing_answer(
            match listing {
                Some(text) => Some(text@),
                None => None,
            },
        ),
        r@.len() > 0,
{
    proof {
        reveal_strlit("*empty*");
    }
    match listing {
        Some(text) => {
            if text.as_str().is_empty() {
                String::from_str("*empty*")
            } else {
                text
            }
        },
        None => String::from_str("*empty*"),
    }
}

/// The answer for one item: that it was added, or that it could not be.
pub open spec fn added_answer(item: Seq<char>, added: bool) -> Seq<char> {
    if added {
        "Added '"@ + item + "'."@
    } else {
        "*failed to add "@ + item + "*"@
    }
}

/// The answer for one item, given whether it could be added. It is never
/// empty.
pub fn added_reply(item: &str, added: bool) -> (r: String)
    ensures
        r@ == added_answer(item@, added),
        r@.len() > 0,
{
    proof {
        reveal_strlit("Added '");
        reveal_strlit("*failed to add ");
    }
    if added {
        let mut out = String::from_str("Added '");
        out.append(item);
        out.append("'.");
        out
    } else {
        let mut out = String::from_str("*failed to add ");
        out.append(item);
        out.append("*");
        out
    }
}

} // verus!
