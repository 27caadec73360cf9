use escpos_lib::message::{Message, Sender};
use escpos_lib::settings::Role;
use escpos_lib::shopping_bot::{
    added_reply, handle, is_permitted, list_categories, list_items, listing_reply,
    message_to_command, text_to_kind, Action, Command, CommandKind,
};
use escpos_lib::storage::{add_category, add_item, Category};
use escpos_lib::text::{lines, starts_with};

fn sender() -> Sender {
    Sender { id: 7, first_name: String::from("Ada"), last_name: None }
}

fn text_message(text: &str) -> Message {
    Message { from: sender(), text: Some(String::from(text)) }
}

fn kind_of(text: &str) -> Option<CommandKind> {
    message_to_command(text_message(text)).map(|command| command.kind)
}

fn role(read: bool, write: bool, print: bool) -> Role {
    Role { name: String::from("r"), read, write, print }
}

fn strings(items: &[&str]) -> Vec<String> {
    items.iter().map(|item| String::from(*item)).collect()
}

#[test]
fn commands_are_recognised() {
    assert_eq!(kind_of("/print"), Some(CommandKind::Print));
    assert_eq!(kind_of("/list"), Some(CommandKind::List));
    assert_eq!(kind_of("/categories"), Some(CommandKind::ListCategories));
}

#[test]
fn commands_are_recognised_in_any_case() {
    assert_eq!(kind_of("/PRINT"), Some(CommandKind::Print));
    assert_eq!(kind_of("/List"), Some(CommandKind::List));
    assert_eq!(kind_of("/CateGories"), Some(CommandKind::ListCategories));
}

#[test]
fn other_text_is_a_list_of_items() {
    assert_eq!(kind_of("milk"), Some(CommandKind::AddItems(String::from("milk"))));
    assert_eq!(kind_of("Milk\nEggs"), Some(CommandKind::AddItems(String::from("Milk\nEggs"))));
    assert_eq!(kind_of("print"), Some(CommandKind::AddItems(String::from("print"))));
    assert_eq!(kind_of(""), Some(CommandKind::AddItems(String::new())));
    assert_eq!(kind_of(" /list"), Some(CommandKind::AddItems(String::from(" /list"))));
}

#[test]
fn unknown_slash_commands_ask_for_nothing() {
    assert_eq!(kind_of("/start"), None);
    assert_eq!(kind_of("/"), None);
    assert_eq!(kind_of("/print now"), None);
    assert_eq!(kind_of("/list\n"), None);
}

#[test]
fn a_message_without_text_carries_no_command() {
    assert_eq!(message_to_command(Message { from: sender(), text: None }), None);
}

#[test]
fn the_command_keeps_its_sender() {
    let from = Sender {
        id: -12,
        first_name: String::from("Grace"),
        last_name: Some(String::from("Hopper")),
    };
    let message = Message { from: from.clone(), text: Some(String::from("/list")) };
    assert_eq!(message_to_command(message), Some(Command { source: from, kind: CommandKind::List }));
}

#[test]
fn text_to_kind_goes_by_the_lowercase_form_it_is_given() {
    let data = String::from("/LIST");
    assert_eq!(text_to_kind(&String::from("/list"), &data), Some(CommandKind::List));
    assert_eq!(text_to_kind(&data, &data), None);
    let plain = String::from("Bread");
    assert_eq!(
        text_to_kind(&String::from("bread"), &plain),
        Some(CommandKind::AddItems(String::from("Bread")))
    );
}

#[test]
fn starts_with_looks_at_the_first_character() {
    assert!(starts_with("/x", '/'));
    assert!(!starts_with("x/", '/'));
    assert!(!starts_with("", '/'));
    assert!(starts_with("üx", 'ü'));
}

#[test]
fn lines_cuts_at_line_breaks() {
    assert_eq!(lines(""), strings(&[""]));
    assert_eq!(lines("a"), strings(&["a"]));
    assert_eq!(lines("a\nb"), strings(&["a", "b"]));
    assert_eq!(lines("a\n"), strings(&["a", ""]));
    assert_eq!(lines("\na"), strings(&["", "a"]));
    assert_eq!(lines("\n\n"), strings(&["", "", ""]));
    assert_eq!(lines("Käse\nBrot 2x\r\nÖl"), strings(&["Käse", "Brot 2x\r", "Öl"]));
}

#[test]
fn lines_agrees_with_split() {
    for text in ["", "\n", "a\n\nb", "one\ntwo\nthree\n", "no break"] {
        let expected: Vec<String> = text.split('\n').map(String::from).collect();
        assert_eq!(lines(text), expected);
        assert_eq!(lines(text).join("\n"), text);
    }
}

#[test]
fn each_request_takes_its_own_right() {
    let list = CommandKind::List;
    let categories = CommandKind::ListCategories;
    let add = CommandKind::AddItems(String::from("x"));
    let print = CommandKind::Print;
    let reader = role(true, false, false);
    let writer = role(false, true, false);
    let printer = role(false, false, true);
    assert!(is_permitted(Some(&reader), &list));
    assert!(is_permitted(Some(&reader), &categories));
    assert!(!is_permitted(Some(&reader), &add));
    assert!(!is_permitted(Some(&reader), &print));
    assert!(!is_permitted(Some(&writer), &list));
    assert!(!is_permitted(Some(&writer), &categories));
    assert!(is_permitted(Some(&writer), &add));
    assert!(!is_permitted(Some(&writer), &print));
    assert!(!is_permitted(Some(&printer), &list));
    assert!(!is_permitted(Some(&printer), &add));
    assert!(is_permitted(Some(&printer), &print));
    for kind in [&list, &categories, &add, &print] {
        assert!(!is_permitted(None, kind));
    }
}

fn reply_text(action: Action) -> Option<String> {
    match action {
        Action::Reply(text) => Some(text),
        _ => None,
    }
}

#[test]
fn what_is_not_permitted_is_refused() {
    let nobody = role(false, false, false);
    for kind in [
        CommandKind::List,
        CommandKind::ListCategories,
        CommandKind::Print,
        CommandKind::AddItems(String::from("x")),
    ] {
        assert_eq!(
            reply_text(handle(Some(&nobody), &kind)),
            Some(String::from("*missing permissions*"))
        );
        assert_eq!(reply_text(handle(None, &kind)), Some(String::from("*missing permissions*")));
    }
}

#[test]
fn what_is_permitted_is_done() {
    let all = role(true, true, true);
    assert!(matches!(handle(Some(&all), &CommandKind::List), Action::ListItems));
    assert!(matches!(handle(Some(&all), &CommandKind::ListCategories), Action::ListCategories));
    assert_eq!(
        reply_text(handle(Some(&all), &CommandKind::Print)),
        Some(String::from("Printing unimplemented"))
    );
    match handle(Some(&all), &CommandKind::AddItems(String::from("milk\neggs\n"))) {
        Action::AddItems(items) => assert_eq!(items, strings(&["milk", "eggs", ""])),
        other => panic!("unexpected action {:?}", other),
    }
}

#[test]
fn items_are_listed_one_to_a_line() {
    assert_eq!(list_items(&strings(&[])), "");
    assert_eq!(list_items(&strings(&["milk"])), "- milk\n");
    assert_eq!(list_items(&strings(&["milk", "", "Öl"])), "- milk\n- \n- Öl\n");
}

#[test]
fn categories_are_listed_with_their_icon() {
    assert_eq!(list_categories(&vec![]), "");
    let categories = vec![
        Category { name: String::from("Dairy"), icon: '🥛' },
        Category { name: String::from("Bread"), icon: 'B' },
    ];
    assert_eq!(list_categories(&categories), "🥛 Dairy\nB Bread\n");
}

#[test]
fn an_empty_or_missing_listing_is_answered_with_a_note() {
    assert_eq!(listing_reply(None), "*empty*");
    assert_eq!(listing_reply(Some(String::new())), "*empty*");
    assert_eq!(listing_reply(Some(String::from("- milk\n"))), "- milk\n");
    assert_eq!(listing_reply(Some(String::from(" "))), " ");
}

#[test]
fn each_item_gets_its_answer() {
    assert_eq!(added_reply("milk", true), "Added 'milk'.");
    assert_eq!(added_reply("milk", false), "*failed to add milk*");
    assert_eq!(added_reply("", true), "Added ''.");
    assert_eq!(added_reply("", false), "*failed to add *");
}

#[test]
fn an_item_is_added_once() {
    let mut items = strings(&["milk", "eggs"]);
    add_item(&mut items, String::from("bread"));
    assert_eq!(items, strings(&["milk", "eggs", "bread"]));
    add_item(&mut items, String::from("milk"));
    assert_eq!(items, strings(&["milk", "eggs", "bread"]));
    add_item(&mut items, String::from("Milk"));
    assert_eq!(items, strings(&["milk", "eggs", "bread", "Milk"]));
    let mut empty: Vec<String> = Vec::new();
    add_item(&mut empty, String::new());
    assert_eq!(empty, strings(&[""]));
}

#[test]
fn a_category_is_added_once() {
    let dairy = Category { name: String::from("Dairy"), icon: 'D' };
    let mut categories = vec![dairy.clone()];
    add_category(&mut categories, dairy.clone());
    assert_eq!(categories, vec![dairy.clone()]);
    let other_icon = Category { name: String::from("Dairy"), icon: 'M' };
    add_category(&mut categories, other_icon.clone());
    assert_eq!(categories, vec![dairy.clone(), other_icon.clone()]);
    let other_name = Category { name: String::from("Milk"), icon: 'D' };
    add_category(&mut categories, other_name.clone());
    assert_eq!(categories, vec![dairy, other_icon, other_name]);
}
