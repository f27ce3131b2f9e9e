//! The `/bento shop ...` command: reading its options and applying it to a
//! server's shop list.

use vstd::prelude::*;

use crate::shop::{Shop, ShopView, add_shop, remove_shop, shop_list_text, shop_list_text_of, with_shop, without_shop_named};

verus! {

/// The value of a command option: text, or anything else the chat client sent.
#[derive(Clone, Debug, PartialEq, Eq)]
pub enum CommandValue {
    Text(String),
    Other,
}

/// One option of a slash command, with its nested options.
#[derive(Debug)]
pub struct CommandOption {
    pub name: String,
    pub value: Option<CommandValue>,
    pub options: Vec<CommandOption>,
}

/// What a `/bento` command asks for.
#[derive(Clone, Debug, PartialEq, Eq)]
pub enum ShopCommand {
    /// `/bento shop add <name> <url>`
    Add(Shop),
    /// `/bento shop remove <name>`
    Remove(String),
    /// `/bento shop list`
    List,
    /// Any other subcommand, which the bot ignores.
    Ignored,
}

/// Model of a `ShopCommand`.
pub enum ShopCommandView {
    Add(ShopView),
    Remove(Seq<char>),
    List,
    Ignored,
}

impl DeepView for ShopCommand {
    type V = ShopCommandView;

    open spec fn deep_view(&self) -> ShopCommandView {
        match self {
            ShopCommand::Add(shop) => ShopCommandView::Add(shop@),
            ShopCommand::Remove(name) => ShopCommandView::Remove(name@),
            ShopCommand::List => ShopCommandView::List,
            ShopCommand::Ignored => ShopCommandView::Ignored,
        }
    }
}

/// The option carries text.
pub open spec fn is_text(value: Option<CommandValue>) -> bool {
    value matches Some(CommandValue::Text(_))
}

/// The text an option carries.
pub open spec fn text_of(value: Option<CommandValue>) -> Seq<char> {
    match value {
        Some(CommandValue::Text(t)) => t@,
        _ => Seq::empty(),
    }
}

/// The command has the options that its subcommand reads: a first option
/// (the group); under `shop`, a subcommand; for `add`, two text options
/// (name, link); for `remove`, one text option (name).
pub open spec fn command_readable(options: Seq<CommandOption>) -> bool {
    &&& options.len() >= 1
    &&& options[0].name@ == "shop"@ ==> {
        &&& options[0].options@.len() >= 1
        &&& ({
            let sub = options[0].options@[0];
            &&& sub.name@ == "add"@ ==> sub.options@.len() >= 2 && is_text(sub.options@[0].value)
                && is_text(sub.options@[1].value)
            &&& sub.name@ == "remove"@ ==> sub.options@.len() >= 1 && is_text(
                sub.options@[0].value,
            )
        })
    }
}

/// What the command's options ask for.
pub open spec fn command_of(options: Seq<CommandOption>) -> ShopCommandView {
    if options[0].name@ == "shop"@ {
        let sub = options[0].options@[0];
        if sub.name@ == "add"@ {
            ShopCommandView::Add(
                ShopView { name: text_of(sub.options@[0].value), url: text_of(sub.options@[1].value) },
            )
        } else if sub.name@ == "remove"@ {
            ShopCommandView::Remove(text_of(sub.options@[0].value))
        } else if sub.name@ == "list"@ {
            ShopCommandView::List
        } else {
            ShopCommandView::Ignored
        }
    } else {
        ShopCommandView::Ignored
    }
}

/// Reply to a successful `add`.
pub open spec fn shop_added_reply() -> Seq<char> {
    "店を追加しました。"@
}

/// Reply to a `remove`.
pub open spec fn shop_removed_reply() -> Seq<char> {
    "店を削除しました。"@
}

/// The text an option carries.
fn text_value(value: &Option<CommandValue>) -> (text: String)
    requires
        is_text(*value),
    ensures
        text@ == text_of(*value),
{
    match value {
        Some(CommandValue::Text(t)) => t.clone(),
        _ => String::new(),
    }
}

/// Whether `name` is the word `word`.
fn named(name: &String, word: &str) -> (same: bool)
    ensures
        same == (name@ == word@),
{
    *name == String::from_str(word)
}

/// Whether the command has the options its subcommand reads, so that
/// `parse_bento_command` can be called on it.
pub fn is_readable_command(options: &Vec<CommandOption>) -> (readable: bool)
    ensures
        readable == command_readable(options@),
{
    if options.len() < 1 {
        return false;
    }
    let group = &options[0];
    if !named(&group.name, "shop") {
        return true;
    }
    if group.options.len() < 1 {
        return false;
    }
    let sub = &group.options[0];
    if named(&sub.name, "add") {
        sub.options.len() >= 2 && has_text(&sub.options[0].value) && has_text(&sub.options[1].value)
    } else if named(&sub.name, "remove") {
        sub.options.len() >= 1 && has_text(&sub.options[0].value)
    } else {
        true
    }
}

/// Whether an option carries text.
fn has_text(value: &Option<CommandValue>) -> (text: bool)
    ensures
        text == is_text(*value),
{
    match value {
        Some(CommandValue::Text(_)) => true,
        _ => false,
    }
}

/// Reads what a `/bento` command asks for from its options.
pub fn parse_bento_command(options: &Vec<CommandOption>) -> (command: ShopCommand)
    requires
        command_readable(options@),
    ensures
        command.deep_view() == command_of(options@),
{
    let group = &options[0];
    if !named(&group.name, "shop") {
        return ShopCommand::Ignored;
    }
    let sub = &group.options[0];
    if named(&sub.name, "add") {
        let name = text_value(&sub.options[0].value);
        let url = text_value(&sub.options[1].value);
        ShopCommand::Add(Shop::new(name, url))
    } else if named(&sub.name, "remove") {
        ShopCommand::Remove(text_value(&sub.options[0].value))
    } else if named(&sub.name, "list") {
        ShopCommand::List
    } else {
        ShopCommand::Ignored
    }
}

/// Applies a command to a server's shop list and returns the reply, if any.
pub fn run_shop_command(command: ShopCommand, shops: &mut Vec<Shop>) -> (reply: Option<String>)
    ensures
        match command.deep_view() {
            ShopCommandView::Add(shop) => {
                &&& final(shops).deep_view() == with_shop(old(shops).deep_view(), shop)
                &&& reply.deep_view() == Some(shop_added_reply())
            },
            ShopCommandView::Remove(name) => {
                &&& final(shops).deep_view() == without_shop_named(old(shops).deep_view(), name)
                &&& reply.deep_view() == Some(shop_removed_reply())
            },
            ShopCommandView::List => {
                &&& final(shops).deep_view() == old(shops).deep_view()
                &&& reply.deep_view() == Some(shop_list_text_of(old(shops).deep_view()))
            },
            ShopCommandView::Ignored => {
                &&& final(shops).deep_view() == old(shops).deep_view()
                &&& reply is None
            },
        },
{
    match command {
        ShopCommand::Add(shop) => {
            add_shop(shops, shop);
            Some(String::from_str("店を追加しました。"))
        },
        ShopCommand::Remove(name) => {
            remove_shop(shops, &name);
            Some(String::from_str("店を削除しました。"))
        },
        ShopCommand::List => Some(shop_list_text(shops)),
        ShopCommand::Ignored => None,
    }
}

/// Which commands can be read. A command without options cannot. One whose
/// group is not `shop` can (it is ignored). Under `shop` there must be a
/// subcommand; `add` needs at least two options that carry text, `remove`
/// at least one; `list` and any other subcommand need nothing more.
pub proof fn law_readable_commands(options: Seq<CommandOption>)
    ensures
        options.len() == 0 ==> !command_readable(options),
        options.len() >= 1 && options[0].name@ != "shop"@ ==> command_readable(options),
        options.len() >= 1 && options[0].name@ == "shop"@ && options[0].options@.len() == 0
            ==> !command_readable(options),
        options.len() >= 1 && options[0].name@ == "shop"@ && options[0].options@.len() >= 1 ==> {
            let sub = options[0].options@[0];
            &&& sub.name@ == "add"@ ==> (command_readable(options) <==> (sub.options@.len() >= 2
                && (sub.options@[0].value matches Some(CommandValue::Text(_)))
                && (sub.options@[1].value matches Some(CommandValue::Text(_)))))
            &&& sub.name@ == "remove"@ ==> (command_readable(options) <==> (sub.options@.len() >= 1
                && (sub.options@[0].value matches Some(CommandValue::Text(_)))))
            &&& sub.name@ != "add"@ && sub.name@ != "remove"@ ==> command_readable(options)
        },
{
    reveal_strlit("add");
    reveal_strlit("remove");
    assert("add"@.len() != "remove"@.len());
}

/// `/bento shop add <n> <u>` asks to add the shop named exactly `n` with the
/// link exactly `u`, whatever the texts hold (spaces and all).
pub proof fn law_add_command_keeps_texts(options: Seq<CommandOption>, n: String, u: String)
    requires
        options.len() >= 1,
        options[0].name@ == "shop"@,
        options[0].options@.len() >= 1,
        options[0].options@[0].name@ == "add"@,
        options[0].options@[0].options@.len() >= 2,
        options[0].options@[0].options@[0].value == Some(CommandValue::Text(n)),
        options[0].options@[0].options@[1].value == Some(CommandValue::Text(u)),
    ensures
        command_readable(options),
        command_of(options) == ShopCommandView::Add(ShopView { name: n@, url: u@ }),
{
}

/// `/bento shop remove <n>` asks to remove the shop named exactly `n`, and
/// `/bento shop list` asks for the listing; any other subcommand or group
/// is ignored.
pub proof fn law_other_commands(options: Seq<CommandOption>, n: String)
    requires
        options.len() >= 1,
    ensures
        options[0].name@ != "shop"@ ==> command_of(options) == ShopCommandView::Ignored,
        options[0].name@ == "shop"@ && options[0].options@.len() >= 1 ==> {
            let sub = options[0].options@[0];
            &&& sub.name@ == "remove"@ && sub.options@.len() >= 1 && sub.options@[0].value == Some(
                CommandValue::Text(n),
            ) ==> command_of(options) == ShopCommandView::Remove(n@)
            &&& sub.name@ == "list"@ ==> command_of(options) == ShopCommandView::List
            &&& sub.name@ != "add"@ && sub.name@ != "remove"@ && sub.name@ != "list"@ ==> command_of(
                options,
            ) == ShopCommandView::Ignored
        },
{
    reveal_strlit("add");
    reveal_strlit("remove");
    reveal_strlit("list");
    assert("add"@.len() != "remove"@.len());
    assert("add"@.len() != "list"@.len());
    assert("list"@.len() != "remove"@.len());
}

/// The replies of the commands that change the list.
pub proof fn law_shop_command_replies()
    ensures
        shop_added_reply() == "店を追加しました。"@,
        shop_removed_reply() == "店を削除しました。"@,
{
}

} // verus!
