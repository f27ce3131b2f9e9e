use arch_bento::command::{is_readable_command, parse_bento_command, run_shop_command, CommandOption, CommandValue, ShopCommand};
use arch_bento::shop::Shop;

fn leaf(name: &str, value: &str) -> CommandOption {
    CommandOption { name: name.to_string(), value: Some(CommandValue::Text(value.to_string())), options: Vec::new() }
}

fn node(name: &str, options: Vec<CommandOption>) -> CommandOption {
    CommandOption { name: name.to_string(), value: None, options }
}

#[test]
fn parses_add() {
    let opts = vec![node("shop", vec![node("add", vec![leaf("name", "弁当屋"), leaf("url", "https://bento.example")])])];
    assert_eq!(
        parse_bento_command(&opts),
        ShopCommand::Add(Shop::new("弁当屋".to_string(), "https://bento.example".to_string()))
    );
}

#[test]
fn parses_remove_and_list() {
    let opts = vec![node("shop", vec![node("remove", vec![leaf("name", "A")])])];
    assert_eq!(parse_bento_command(&opts), ShopCommand::Remove("A".to_string()));
    let opts = vec![node("shop", vec![node("list", Vec::new())])];
    assert_eq!(parse_bento_command(&opts), ShopCommand::List);
}

#[test]
fn ignores_other_commands() {
    let opts = vec![node("vote", Vec::new())];
    assert_eq!(parse_bento_command(&opts), ShopCommand::Ignored);
    let opts = vec![node("shop", vec![node("rename", Vec::new())])];
    assert_eq!(parse_bento_command(&opts), ShopCommand::Ignored);
}

#[test]
fn run_add_then_list_then_remove() {
    let mut shops: Vec<Shop> = Vec::new();
    let reply = run_shop_command(ShopCommand::Add(Shop::new("A".to_string(), "1".to_string())), &mut shops);
    assert_eq!(reply, Some("店を追加しました。".to_string()));
    assert_eq!(shops, vec![Shop::new("A".to_string(), "1".to_string())]);
    let reply = run_shop_command(ShopCommand::List, &mut shops);
    assert_eq!(reply, Some("- A\n".to_string()));
    assert_eq!(shops.len(), 1);
    let reply = run_shop_command(ShopCommand::Remove("A".to_string()), &mut shops);
    assert_eq!(reply, Some("店を削除しました。".to_string()));
    assert!(shops.is_empty());
}

#[test]
fn run_ignored_changes_nothing() {
    let mut shops = vec![Shop::new("A".to_string(), "1".to_string())];
    assert_eq!(run_shop_command(ShopCommand::Ignored, &mut shops), None);
    assert_eq!(shops, vec![Shop::new("A".to_string(), "1".to_string())]);
}

#[test]
fn readable_commands() {
    assert!(!is_readable_command(&Vec::new()));
    assert!(is_readable_command(&vec![node("other", Vec::new())]));
    assert!(!is_readable_command(&vec![node("shop", Vec::new())]));
    assert!(is_readable_command(&vec![node("shop", vec![node("list", Vec::new())])]));
    assert!(!is_readable_command(&vec![node("shop", vec![node("add", vec![leaf("name", "A")])])]));
    let not_text = CommandOption { name: "name".to_string(), value: Some(CommandValue::Other), options: Vec::new() };
    assert!(!is_readable_command(&vec![node("shop", vec![node("remove", vec![not_text])])]));
    assert!(is_readable_command(&vec![node("shop", vec![node("remove", vec![leaf("name", "A")])])]));
}
