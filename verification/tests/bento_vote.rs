use arch_bento::bento::{
    BentoAction, BentoEvent, BentoEventAction, BentoInstance, BentoState, BentoUser, ButtonStyle, EmbedField,
};
use arch_bento::roulette::{RouletteClient, RouletteCreateResponse, RouletteItem};
use arch_bento::shop::Shop;

fn user(id: u64, name: &str) -> BentoUser {
    BentoUser {
        id,
        name: name.to_string(),
        avatar_url: None,
        default_avatar_url: format!("https://cdn.example/default/{}.png", id),
    }
}

fn event(action: BentoEventAction, arg: &str) -> BentoEvent {
    BentoEvent { id: 900, action, arg: arg.to_string() }
}

fn instance() -> BentoInstance {
    let shops = vec![
        Shop::new("A".to_string(), "https://a.example".to_string()),
        Shop::new("B".to_string(), "https://b.example".to_string()),
    ];
    BentoInstance::new(user(1, "starter"), 900, shops)
}

fn response(id: &str, secret: &str) -> RouletteCreateResponse {
    RouletteCreateResponse {
        id: id.to_string(),
        title: "ARCH弁当".to_string(),
        items: Vec::new(),
        created_at: "0".to_string(),
        secret: secret.to_string(),
    }
}

#[test]
fn new_vote_is_open_and_empty() {
    let inst = instance();
    assert_eq!(inst.state, BentoState::VOTE);
    assert!(inst.vote.is_empty());
    assert_eq!(inst.roulette_id, None);
    assert_eq!(inst.roulette_secret, None);
}

#[test]
fn vote_records_and_replies() {
    let mut inst = instance();
    let actions = inst.interaction(&event(BentoEventAction::VOTE_SHOP, "A"), &user(2, "alice"));
    assert_eq!(actions, vec![BentoAction::Reply("`A` へ投票しました。".to_string()), BentoAction::EditMessage]);
    assert_eq!(inst.vote.len(), 1);
    assert_eq!(inst.vote[0].user_id, 2);
    assert_eq!(inst.vote[0].user_name, "alice");
    assert_eq!(inst.vote[0].shop, "A");
    assert_eq!(inst.state, BentoState::VOTE);
}

#[test]
fn revote_replaces_shop_and_keeps_recorded_name() {
    let mut inst = instance();
    inst.interaction(&event(BentoEventAction::VOTE_SHOP, "A"), &user(2, "alice"));
    inst.interaction(&event(BentoEventAction::VOTE_SHOP, "B"), &user(3, "bob"));
    inst.interaction(&event(BentoEventAction::VOTE_SHOP, "B"), &user(2, "alice2"));
    assert_eq!(inst.vote.len(), 2);
    assert_eq!(inst.vote[0].user_id, 2);
    assert_eq!(inst.vote[0].user_name, "alice");
    assert_eq!(inst.vote[0].shop, "B");
    assert_eq!(inst.vote[1].user_id, 3);
    assert_eq!(inst.vote[1].shop, "B");
}

#[test]
fn only_starter_can_close() {
    let mut inst = instance();
    inst.interaction(&event(BentoEventAction::VOTE_SHOP, "A"), &user(2, "alice"));
    let actions = inst.interaction(&event(BentoEventAction::END_VOTE, ""), &user(2, "alice"));
    assert_eq!(actions, vec![BentoAction::Reply("投票の作成者のみ締め切り可能です。".to_string())]);
    assert_eq!(inst.state, BentoState::VOTE);
    let actions = inst.interaction(&event(BentoEventAction::START_ROULETTE, ""), &user(2, "alice"));
    assert_eq!(actions, vec![BentoAction::Reply("投票の作成者のみ可能です。".to_string())]);
    assert_eq!(inst.state, BentoState::VOTE);
}

#[test]
fn full_round() {
    let mut inst = instance();
    inst.interaction(&event(BentoEventAction::VOTE_SHOP, "A"), &user(2, "alice"));
    inst.interaction(&event(BentoEventAction::VOTE_SHOP, "B"), &user(3, "bob"));
    inst.interaction(&event(BentoEventAction::VOTE_SHOP, "A"), &user(4, "carol"));

    let actions = inst.interaction(&event(BentoEventAction::END_VOTE, ""), &user(1, "starter"));
    assert_eq!(inst.state, BentoState::ROULETTE);
    assert_eq!(actions.len(), 2);
    assert_eq!(actions[0], BentoAction::Reply("投票を締め切りました。ルーレットを作成します。".to_string()));
    match &actions[1] {
        BentoAction::CreateRoulette(req) => {
            assert_eq!(req.title, "ARCH弁当");
            let labels: Vec<&str> = req.items.iter().map(|i: &RouletteItem| i.label.as_str()).collect();
            assert_eq!(labels, vec!["A", "B", "A"]);
        }
        other => panic!("unexpected action {:?}", other),
    }

    let client = RouletteClient::new("https://roulette.example".to_string());
    let actions = inst.roulette_created(&client, response("r1", "s1"));
    assert_eq!(
        actions,
        vec![
            BentoAction::SendMessage(
                "## ルーレットが作成されました。下のリンクから参加できます。\nhttps://roulette.example/roulette/r1".to_string()
            ),
            BentoAction::EditMessage,
        ]
    );
    assert_eq!(inst.roulette_id, Some("r1".to_string()));
    assert_eq!(inst.roulette_secret, Some("s1".to_string()));

    let actions = inst.interaction(&event(BentoEventAction::START_ROULETTE, ""), &user(1, "starter"));
    assert_eq!(inst.state, BentoState::END);
    assert_eq!(
        actions,
        vec![
            BentoAction::Reply("ルーレットを開始しました。".to_string()),
            BentoAction::StartRoulette("r1".to_string(), "s1".to_string()),
            BentoAction::EditMessage,
        ]
    );
}

#[test]
fn message_groups_votes_by_shop() {
    let mut inst = instance();
    inst.interaction(&event(BentoEventAction::VOTE_SHOP, "B"), &user(2, "alice"));
    inst.interaction(&event(BentoEventAction::VOTE_SHOP, "A"), &user(3, "bob"));
    inst.interaction(&event(BentoEventAction::VOTE_SHOP, "B"), &user(4, "carol"));
    let view = inst.message_view();
    assert_eq!(view.title, "ARCH弁当");
    assert_eq!(view.footer_text, "starter");
    assert_eq!(view.footer_icon_url, "https://cdn.example/default/1.png");
    assert_eq!(
        view.fields,
        vec![
            EmbedField { name: "B".to_string(), value: "alice, carol".to_string(), inline: true },
            EmbedField { name: "A".to_string(), value: "bob".to_string(), inline: true },
        ]
    );
}

#[test]
fn message_buttons_in_each_phase() {
    let mut inst = instance();
    let view = inst.message_view();
    assert_eq!(view.rows.len(), 2);
    assert_eq!(view.rows[0].len(), 2);
    assert_eq!(view.rows[0][0].style, ButtonStyle::Primary);
    assert_eq!(view.rows[0][0].label, "A");
    assert_eq!(view.rows[0][0].event, event(BentoEventAction::VOTE_SHOP, "A"));
    assert_eq!(view.rows[0][1].event, event(BentoEventAction::VOTE_SHOP, "B"));
    assert_eq!(view.rows[1].len(), 1);
    assert_eq!(view.rows[1][0].style, ButtonStyle::Secondary);
    assert_eq!(view.rows[1][0].label, "投票を締め切る");
    assert_eq!(view.rows[1][0].event, event(BentoEventAction::END_VOTE, ""));

    inst.interaction(&event(BentoEventAction::END_VOTE, ""), &user(1, "starter"));
    let client = RouletteClient::new("https://r.example".to_string());
    inst.roulette_created(&client, response("r", "s"));
    let view = inst.message_view();
    assert_eq!(view.rows.len(), 1);
    assert_eq!(view.rows[0][0].style, ButtonStyle::Success);
    assert_eq!(view.rows[0][0].label, "ルーレットを回す");
    assert_eq!(view.rows[0][0].event, event(BentoEventAction::START_ROULETTE, ""));

    inst.interaction(&event(BentoEventAction::START_ROULETTE, ""), &user(1, "starter"));
    assert!(inst.message_view().rows.is_empty());
}

#[test]
fn footer_uses_avatar_when_present() {
    let mut starter = user(1, "starter");
    starter.avatar_url = Some("https://cdn.example/avatar.png".to_string());
    let inst = BentoInstance::new(starter, 5, Vec::new());
    let view = inst.message_view();
    assert_eq!(view.footer_icon_url, "https://cdn.example/avatar.png");
    assert!(view.fields.is_empty());
    assert_eq!(view.rows.len(), 2);
    assert!(view.rows[0].is_empty());
}

#[test]
fn votes_are_accepted_in_every_phase() {
    let mut inst = instance();
    inst.interaction(&event(BentoEventAction::END_VOTE, ""), &user(1, "starter"));
    let actions = inst.interaction(&event(BentoEventAction::VOTE_SHOP, "A"), &user(2, "late"));
    assert_eq!(actions.len(), 2);
    assert_eq!(inst.vote.len(), 1);
    assert_eq!(inst.state, BentoState::ROULETTE);
}

#[test]
fn pressing_a_shown_vote_button_records_its_shop() {
    let mut inst = instance();
    let view = inst.message_view();
    let pressed = view.rows[0][1].event.clone();
    assert_eq!(pressed.id, 900);
    inst.interaction(&pressed, &user(7, "dave"));
    assert_eq!(inst.vote.len(), 1);
    assert_eq!(inst.vote[0].user_id, 7);
    assert_eq!(inst.vote[0].shop, "B");
}
