//! A lunch vote: users vote for a shop by button, the user who started the
//! vote closes it, a roulette is built from the votes and then spun.
//!
//! The decisions are made here; the caller performs the returned actions
//! (replies, messages, requests to the roulette service) and hands back
//! what the roulette service answered.

use vstd::prelude::*;

use crate::roulette::{RouletteClient, RouletteCreateRequest, RouletteCreateResponse, RouletteItem, RouletteRequestView, page_url_of};
use crate::shop::{Shop, ShopView};

verus! {

/// Phase of a vote.
#[allow(non_camel_case_types)]
#[derive(Clone, Copy, Debug, PartialEq, Eq, Structural, PartialOrd, Ord)]
pub enum BentoState {
    VOTE,
    ROULETTE,
    END,
}

/// What a button press asks for.
#[allow(non_camel_case_types)]
#[derive(Clone, Copy, Debug, PartialEq, Eq, Structural)]
pub enum BentoEventAction {
    VOTE_SHOP,
    END_VOTE,
    START_ROULETTE,
}

/// A button press: the vote it belongs to (the id of the vote's message),
/// what it asks for, and its argument (the shop's name for a vote).
#[derive(Clone, Debug, PartialEq, Eq)]
pub struct BentoEvent {
    pub id: u64,
    pub action: BentoEventAction,
    pub arg: String,
}

/// Model of a `BentoEvent`.
pub struct BentoEventView {
    pub id: u64,
    pub action: BentoEventAction,
    pub arg: Seq<char>,
}

impl View for BentoEvent {
    type V = BentoEventView;

    open spec fn view(&self) -> BentoEventView {
        BentoEventView { id: self.id, action: self.action, arg: self.arg@ }
    }
}

impl DeepView for BentoEvent {
    type V = BentoEventView;

    open spec fn deep_view(&self) -> BentoEventView {
        self@
    }
}

/// A chat user as the vote sees it.
#[derive(Clone, Debug, PartialEq, Eq)]
pub struct BentoUser {
    pub id: u64,
    pub name: String,
    pub avatar_url: Option<String>,
    pub default_avatar_url: String,
}

/// Model of a `BentoUser`.
pub struct BentoUserView {
    pub id: u64,
    pub name: Seq<char>,
    pub avatar_url: Option<Seq<char>>,
    pub default_avatar_url: Seq<char>,
}

impl View for BentoUser {
    type V = BentoUserView;

    open spec fn view(&self) -> BentoUserView {
        BentoUserView {
            id: self.id,
            name: self.name@,
            avatar_url: self.avatar_url.deep_view(),
            default_avatar_url: self.default_avatar_url@,
        }
    }
}

/// One user's vote: who cast it, under which name, and for which shop.
#[derive(Clone, Debug, PartialEq, Eq)]
pub struct Vote {
    pub user_id: u64,
    pub user_name: String,
    pub shop: String,
}

/// Model of a `Vote`.
pub struct VoteView {
    pub user_id: u64,
    pub user_name: Seq<char>,
    pub shop: Seq<char>,
}

impl View for Vote {
    type V = VoteView;

    open spec fn view(&self) -> VoteView {
        VoteView { user_id: self.user_id, user_name: self.user_name@, shop: self.shop@ }
    }
}

impl DeepView for Vote {
    type V = VoteView;

    open spec fn deep_view(&self) -> VoteView {
        self@
    }
}

/// One running vote, attached to one chat message.
#[derive(Clone, Debug, PartialEq, Eq)]
pub struct BentoInstance {
    /// The user who started the vote; only they may close it or spin the roulette.
    pub start_user: BentoUser,
    /// Id of the message that shows the vote.
    pub message_id: u64,
    /// The votes cast, one per user, in the order users first voted.
    pub vote: Vec<Vote>,
    pub roulette_id: Option<String>,
    pub roulette_secret: Option<String>,
    pub state: BentoState,
    /// The shops that can be voted for.
    pub shops: Vec<Shop>,
}

/// Model of a `BentoInstance`.
pub struct BentoInstanceView {
    pub start_user: BentoUserView,
    pub message_id: u64,
    pub votes: Seq<VoteView>,
    pub roulette_id: Option<Seq<char>>,
    pub roulette_secret: Option<Seq<char>>,
    pub state: BentoState,
    pub shops: Seq<ShopView>,
}

impl View for BentoInstance {
    type V = BentoInstanceView;

    open spec fn view(&self) -> BentoInstanceView {
        BentoInstanceView {
            start_user: self.start_user@,
            message_id: self.message_id,
            votes: self.vote.deep_view(),
            roulette_id: self.roulette_id.deep_view(),
            roulette_secret: self.roulette_secret.deep_view(),
            state: self.state,
            shops: self.shops.deep_view(),
        }
    }
}

/// Something the caller must do after a decision.
#[derive(Clone, Debug, PartialEq, Eq)]
pub enum BentoAction {
    /// Answer the button press with this text, shown to the presser only.
    Reply(String),
    /// Ask the roulette service to create this roulette, then hand the
    /// answer to `BentoInstance::roulette_created`.
    CreateRoulette(RouletteCreateRequest),
    /// Post this text in the vote's channel.
    SendMessage(String),
    /// Ask the roulette service to spin roulette `id` with `secret`.
    StartRoulette(String, String),
    /// Redraw the vote's message from `BentoInstance::message_view`.
    EditMessage,
}

/// Model of a `BentoAction`.
pub enum ActionView {
    Reply(Seq<char>),
    CreateRoulette(RouletteRequestView),
    SendMessage(Seq<char>),
    StartRoulette(Seq<char>, Seq<char>),
    EditMessage,
}

impl DeepView for BentoAction {
    type V = ActionView;

    open spec fn deep_view(&self) -> ActionView {
        match self {
            BentoAction::Reply(t) => ActionView::Reply(t@),
            BentoAction::CreateRoulette(r) => ActionView::CreateRoulette(r.deep_view()),
            BentoAction::SendMessage(t) => ActionView::SendMessage(t@),
            BentoAction::StartRoulette(id, secret) => ActionView::StartRoulette(id@, secret@),
            BentoAction::EditMessage => ActionView::EditMessage,
        }
    }
}

/// Colour of a button.
#[derive(Clone, Copy, Debug, PartialEq, Eq, Structural)]
pub enum ButtonStyle {
    Primary,
    Secondary,
    Success,
}

/// A button under the vote's message, and the event pressing it sends.
#[derive(Clone, Debug, PartialEq, Eq)]
pub struct Button {
    pub style: ButtonStyle,
    pub label: String,
    pub event: BentoEvent,
}

/// Model of a `Button`.
pub struct ButtonView {
    pub style: ButtonStyle,
    pub label: Seq<char>,
    pub event: BentoEventView,
}

impl DeepView for Button {
    type V = ButtonView;

    open spec fn deep_view(&self) -> ButtonView {
        ButtonView { style: self.style, label: self.label@, event: self.event@ }
    }
}

/// A field of the vote's embed: a shop and who voted for it.
#[derive(Clone, Debug, PartialEq, Eq)]
pub struct EmbedField {
    pub name: String,
    pub value: String,
    /// Shown side by side with its neighbours.
    pub inline: bool,
}

/// Model of an `EmbedField`.
pub struct FieldView {
    pub name: Seq<char>,
    pub value: Seq<char>,
    pub inline: bool,
}

impl DeepView for EmbedField {
    type V = FieldView;

    open spec fn deep_view(&self) -> FieldView {
        FieldView { name: self.name@, value: self.value@, inline: self.inline }
    }
}

/// What the vote's message shows: an embed (title, fields, footer with the
/// starter's name and picture) and rows of buttons.
#[derive(Clone, Debug, PartialEq, Eq)]
pub struct BentoMessageView {
    pub title: String,
    pub footer_text: String,
    pub footer_icon_url: String,
    pub fields: Vec<EmbedField>,
    pub rows: Vec<Vec<Button>>,
}

/// Model of a `BentoMessageView`.
pub struct MessageModel {
    pub title: Seq<char>,
    pub footer_text: Seq<char>,
    pub footer_icon_url: Seq<char>,
    pub fields: Seq<FieldView>,
    pub rows: Seq<Seq<ButtonView>>,
}

impl DeepView for BentoMessageView {
    type V = MessageModel;

    open spec fn deep_view(&self) -> MessageModel {
        MessageModel {
            title: self.title@,
            footer_text: self.footer_text@,
            footer_icon_url: self.footer_icon_url@,
            fields: self.fields.deep_view(),
            rows: self.rows.deep_view(),
        }
    }
}

/// `i` is the first field of `fields` named `shop`.
pub open spec fn is_first_field(fields: Seq<FieldView>, shop: Seq<char>, i: int) -> bool {
    &&& 0 <= i < fields.len()
    &&& fields[i].name == shop
    &&& forall|j: int| 0 <= j < i ==> fields[j].name != shop
}

/// The embed fields for `votes`: one inline field per shop, in the order shops were
/// first voted for, whose value lists the voters' names joined by ", ",
/// in the order of the votes.
pub open spec fn vote_fields_of(votes: Seq<VoteView>) -> Seq<FieldView>
    decreases votes.len(),
{
    if votes.len() == 0 {
        Seq::empty()
    } else {
        let fields = vote_fields_of(votes.drop_last());
        let v = votes.last();
        if exists|i: int| is_first_field(fields, v.shop, i) {
            let i = choose|i: int| is_first_field(fields, v.shop, i);
            fields.update(
                i,
                FieldView { name: fields[i].name, value: fields[i].value + ", "@ + v.user_name, inline: fields[i].inline },
            )
        } else {
            fields.push(FieldView { name: v.shop, value: v.user_name, inline: true })
        }
    }
}

/// The button that votes for `shop` on vote `id`.
pub open spec fn vote_button_of(id: u64, shop: ShopView) -> ButtonView {
    ButtonView {
        style: ButtonStyle::Primary,
        label: shop.name,
        event: BentoEventView { id, action: BentoEventAction::VOTE_SHOP, arg: shop.name },
    }
}

/// The button that closes vote `id`.
pub open spec fn end_vote_button_of(id: u64) -> ButtonView {
    ButtonView {
        style: ButtonStyle::Secondary,
        label: "投票を締め切る"@,
        event: BentoEventView { id, action: BentoEventAction::END_VOTE, arg: Seq::empty() },
    }
}

/// The button that spins the roulette of vote `id`.
pub open spec fn start_button_of(id: u64) -> ButtonView {
    ButtonView {
        style: ButtonStyle::Success,
        label: "ルーレットを回す"@,
        event: BentoEventView { id, action: BentoEventAction::START_ROULETTE, arg: Seq::empty() },
    }
}

/// The rows of buttons in each phase: while voting, one row with a button
/// per shop and a row with the close button; once closed, the spin button;
/// at the end, none.
pub open spec fn button_rows_of(state: BentoState, id: u64, shops: Seq<ShopView>) -> Seq<Seq<ButtonView>> {
    match state {
        BentoState::VOTE => seq![
            shops.map_values(|s: ShopView| vote_button_of(id, s)),
            seq![end_vote_button_of(id)],
        ],
        BentoState::ROULETTE => seq![seq![start_button_of(id)]],
        BentoState::END => Seq::empty(),
    }
}

/// What the message of `inst` shows.
pub open spec fn message_of(inst: BentoInstanceView) -> MessageModel {
    MessageModel {
        title: roulette_title(),
        footer_text: inst.start_user.name,
        footer_icon_url: match inst.start_user.avatar_url {
            Some(url) => url,
            None => inst.start_user.default_avatar_url,
        },
        fields: vote_fields_of(inst.votes),
        rows: button_rows_of(inst.state, inst.message_id, inst.shops),
    }
}

/// No user has two votes.
pub open spec fn voters_distinct(votes: Seq<VoteView>) -> bool {
    forall|i: int, j: int|
        0 <= i < votes.len() && 0 <= j < votes.len() && i != j ==> votes[i].user_id
            != votes[j].user_id
}

/// The well-formedness of a vote: one vote per user, and a roulette id
/// exactly when there is a roulette secret.
pub open spec fn instance_wf(inst: BentoInstanceView) -> bool {
    &&& voters_distinct(inst.votes)
    &&& (inst.roulette_id is Some <==> inst.roulette_secret is Some)
}

/// Whether `user_id` has voted.
pub open spec fn has_voted(votes: Seq<VoteView>, user_id: u64) -> bool {
    exists|i: int| 0 <= i < votes.len() && votes[i].user_id == user_id
}

/// The votes after `user_id` (called `user_name`) votes for `shop`: a
/// user who already voted keeps their entry, under the name recorded then,
/// with the new shop; a new voter is added at the end.
pub open spec fn record_vote(
    votes: Seq<VoteView>,
    user_id: u64,
    user_name: Seq<char>,
    shop: Seq<char>,
) -> Seq<VoteView> {
    if has_voted(votes, user_id) {
        let i = choose|i: int| 0 <= i < votes.len() && votes[i].user_id == user_id;
        votes.update(i, VoteView { user_id, user_name: votes[i].user_name, shop })
    } else {
        votes.push(VoteView { user_id, user_name, shop })
    }
}

/// The title every roulette gets.
pub open spec fn roulette_title() -> Seq<char> {
    "ARCH弁当"@
}

/// The roulette built from the votes: one slot per vote, labelled with the
/// shop voted for, in the order of the votes.
pub open spec fn roulette_request_of(votes: Seq<VoteView>) -> RouletteRequestView {
    RouletteRequestView { title: roulette_title(), items: votes.map_values(|v: VoteView| v.shop) }
}

/// Reply to a vote for `shop`.
pub open spec fn vote_reply_of(shop: Seq<char>) -> Seq<char> {
    "`"@ + shop + "` へ投票しました。"@
}

/// Reply when the starter closes the vote.
pub open spec fn closed_reply() -> Seq<char> {
    "投票を締め切りました。ルーレットを作成します。"@
}

/// Reply when someone other than the starter tries to close the vote.
pub open spec fn close_refused_reply() -> Seq<char> {
    "投票の作成者のみ締め切り可能です。"@
}

/// Reply when the starter spins the roulette.
pub open spec fn started_reply() -> Seq<char> {
    "ルーレットを開始しました。"@
}

/// Reply when someone other than the starter tries to spin the roulette.
pub open spec fn start_refused_reply() -> Seq<char> {
    "投票の作成者のみ可能です。"@
}

/// Message posted once the roulette exists, linking to its page.
pub open spec fn roulette_announcement_of(base_url: Seq<char>, id: Seq<char>) -> Seq<char> {
    "## ルーレットが作成されました。下のリンクから参加できます。\n"@ + page_url_of(base_url, id)
}

/// What a button press by `user_id` (called `user_name`) does: the new
/// state of the vote and the actions to perform, in order.
pub open spec fn interaction_outcome(
    inst: BentoInstanceView,
    event: BentoEventView,
    user_id: u64,
    user_name: Seq<char>,
) -> (BentoInstanceView, Seq<ActionView>) {
    match event.action {
        BentoEventAction::VOTE_SHOP => (
            BentoInstanceView {
                votes: record_vote(inst.votes, user_id, user_name, event.arg),
                ..inst
            },
            seq![ActionView::Reply(vote_reply_of(event.arg)), ActionView::EditMessage],
        ),
        BentoEventAction::END_VOTE => if user_id == inst.start_user.id {
            (
                BentoInstanceView { state: BentoState::ROULETTE, ..inst },
                seq![
                    ActionView::Reply(closed_reply()),
                    ActionView::CreateRoulette(roulette_request_of(inst.votes)),
                ],
            )
        } else {
            (inst, seq![ActionView::Reply(close_refused_reply())])
        },
        BentoEventAction::START_ROULETTE => if user_id == inst.start_user.id {
            (
                BentoInstanceView { state: BentoState::END, ..inst },
                seq![
                    ActionView::Reply(started_reply()),
                    ActionView::StartRoulette(
                        inst.roulette_id.unwrap(),
                        inst.roulette_secret.unwrap(),
                    ),
                    ActionView::EditMessage,
                ],
            )
        } else {
            (inst, seq![ActionView::Reply(start_refused_reply())])
        },
    }
}

/// A press that would spin a roulette that was never created: the starter
/// pressing "start" before the roulette service answered.
pub open spec fn start_without_roulette(inst: BentoInstanceView, event: BentoEventView, user_id: u64) -> bool {
    &&& event.action == BentoEventAction::START_ROULETTE
    &&& user_id == inst.start_user.id
    &&& inst.roulette_id is None
}

/// What storing the roulette service's answer does: the vote remembers the
/// roulette, the channel is told where to find it, and the message is redrawn.
pub open spec fn roulette_created_outcome(
    inst: BentoInstanceView,
    base_url: Seq<char>,
    id: Seq<char>,
    secret: Seq<char>,
) -> (BentoInstanceView, Seq<ActionView>) {
    (
        BentoInstanceView { roulette_id: Some(id), roulette_secret: Some(secret), ..inst },
        seq![ActionView::SendMessage(roulette_announcement_of(base_url, id)), ActionView::EditMessage],
    )
}

impl BentoInstance {
    /// The well-formedness of the vote.
    pub open spec fn wf(&self) -> bool {
        instance_wf(self@)
    }

    /// A new vote started by `start_user` on message `message_id`, offering `shops`.
    pub fn new(start_user: BentoUser, message_id: u64, shops: Vec<Shop>) -> (inst: BentoInstance)
        ensures
            inst.wf(),
            inst@ == (BentoInstanceView {
                start_user: start_user@,
                message_id,
                votes: Seq::empty(),
                roulette_id: None,
                roulette_secret: None,
                state: BentoState::VOTE,
                shops: shops.deep_view(),
            }),
    {
        let inst = BentoInstance {
            start_user,
            message_id,
            vote: Vec::new(),
            roulette_id: None,
            roulette_secret: None,
            state: BentoState::VOTE,
            shops,
        };
        assert(inst.vote.deep_view() =~= Seq::<VoteView>::empty());
        inst
    }

    /// Records that `user` votes for `shop`.
    fn cast_vote(&mut self, user: &BentoUser, shop: &String)
        requires
            old(self).wf(),
        ensures
            final(self).wf(),
            final(self)@ == (BentoInstanceView {
                votes: record_vote(old(self)@.votes, user.id, user.name@, shop@),
                ..old(self)@
            }),
    {
        let ghost votes = self@.votes;
        let mut i: usize = 0;
        while i < self.vote.len()
            invariant
                i <= self.vote.len(),
                *self == *old(self),
                votes == self@.votes,
                old(self).wf(),
                forall|j: int| 0 <= j < i ==> votes[j].user_id != user.id,
            decreases self.vote.len() - i,
        {
            if self.vote[i].user_id == user.id {
                proof {
                    let k = choose|k: int| 0 <= k < votes.len() && votes[k].user_id == user.id;
                    assert(votes[i as int].user_id == user.id);
                    assert(k == i as int);
                }
                let name = self.vote[i].user_name.clone();
                let updated = Vote { user_id: user.id, user_name: name, shop: shop.clone() };
                self.vote.set(i, updated);
                assert(self.vote.deep_view() =~= record_vote(votes, user.id, user.name@, shop@));
                return;
            }
            i = i + 1;
        }
        let fresh = Vote { user_id: user.id, user_name: user.name.clone(), shop: shop.clone() };
        self.vote.push(fresh);
        assert(self.vote.deep_view() =~= record_vote(votes, user.id, user.name@, shop@));
    }

    /// The request that creates a roulette out of the votes.
    pub fn roulette_request(&self) -> (req: RouletteCreateRequest)
        ensures
            req.deep_view() == roulette_request_of(self@.votes),
    {
        let ghost votes = self@.votes;
        let mut items: Vec<RouletteItem> = Vec::new();
        let mut i: usize = 0;
        while i < self.vote.len()
            invariant
                i <= self.vote.len(),
                votes == self@.votes,
                items.deep_view() =~= votes.take(i as int).map_values(|v: VoteView| v.shop),
            decreases self.vote.len() - i,
        {
            let ghost before = items.deep_view();
            items.push(RouletteItem { label: self.vote[i].shop.clone() });
            assert(items.deep_view() =~= before.push(votes[i as int].shop));
            assert(votes.take(i + 1).map_values(|v: VoteView| v.shop) =~= votes.take(
                i as int,
            ).map_values(|v: VoteView| v.shop).push(votes[i as int].shop));
            i = i + 1;
        }
        assert(votes.take(self.vote.len() as int) =~= votes);
        RouletteCreateRequest { title: String::from_str("ARCH弁当"), items }
    }

    /// Handles a button press by `user`.
    ///
    /// A vote (from anyone, in any phase) records or changes the presser's
    /// choice. Closing the vote or spinning the roulette is reserved to the
    /// user who started the vote; anyone else gets a refusal and nothing
    /// changes.
    pub fn interaction(&mut self, event: &BentoEvent, user: &BentoUser) -> (actions: Vec<BentoAction>)
        requires
            old(self).wf(),
            !start_without_roulette(old(self)@, event@, user.id),
        ensures
            final(self).wf(),
            (final(self)@, actions.deep_view()) == interaction_outcome(
                old(self)@,
                event@,
                user.id,
                user.name@,
            ),
    {
        let mut actions: Vec<BentoAction> = Vec::new();
        match event.action {
            BentoEventAction::VOTE_SHOP => {
                self.cast_vote(user, &event.arg);
                let mut reply = String::from_str("`");
                reply.append(event.arg.as_str());
                reply.append("` へ投票しました。");
                actions.push(BentoAction::Reply(reply));
                actions.push(BentoAction::EditMessage);
            },
            BentoEventAction::END_VOTE => {
                if self.start_user.id == user.id {
                    self.state = BentoState::ROULETTE;
                    actions.push(BentoAction::Reply(String::from_str("投票を締め切りました。ルーレットを作成します。")));
                    actions.push(BentoAction::CreateRoulette(self.roulette_request()));
                } else {
                    actions.push(BentoAction::Reply(String::from_str("投票の作成者のみ締め切り可能です。")));
                }
            },
            BentoEventAction::START_ROULETTE => {
                if self.start_user.id == user.id {
                    self.state = BentoState::END;
                    actions.push(BentoAction::Reply(String::from_str("ルーレットを開始しました。")));
                    let id = self.roulette_id.clone().unwrap();
                    let secret = self.roulette_secret.clone().unwrap();
                    actions.push(BentoAction::StartRoulette(id, secret));
                    actions.push(BentoAction::EditMessage);
                } else {
                    actions.push(BentoAction::Reply(String::from_str("投票の作成者のみ可能です。")));
                }
            },
        }
        let ghost expected = interaction_outcome(old(self)@, event@, user.id, user.name@).1;
        assert(actions.deep_view() =~= expected);
        actions
    }

    /// The embed fields grouping the votes by shop.
    fn vote_fields(&self) -> (fields: Vec<EmbedField>)
        ensures
            fields.deep_view() == vote_fields_of(self@.votes),
    {
        let ghost votes = self@.votes;
        let mut fields: Vec<EmbedField> = Vec::new();
        let mut i: usize = 0;
        assert(votes.take(0) =~= Seq::<VoteView>::empty());
        while i < self.vote.len()
            invariant
                i <= self.vote.len(),
                votes == self@.votes,
                fields.deep_view() == vote_fields_of(votes.take(i as int)),
            decreases self.vote.len() - i,
        {
            let ghost prev = fields.deep_view();
            let ghost v = votes[i as int];
            assert(votes.take(i + 1).drop_last() =~= votes.take(i as int));
            assert(votes.take(i + 1).last() == v);
            let shop = &self.vote[i].shop;
            let mut j: usize = 0;
            let mut found = false;
            while j < fields.len()
                invariant_except_break
                    !found,
                invariant
                    j <= fields.len(),
                    prev == fields.deep_view(),
                    forall|k: int| 0 <= k < j ==> prev[k].name != v.shop,
                    shop@ == v.shop,
                ensures
                    found ==> j < fields.len() && prev[j as int].name == v.shop,
                    !found ==> j == fields.len(),
                decreases fields.len() - j,
            {
                if fields[j].name == *shop {
                    found = true;
                    break;
                }
                j = j + 1;
            }
            if found {
                assert(is_first_field(prev, v.shop, j as int));
                proof {
                    let k = choose|k: int| is_first_field(prev, v.shop, k);
                    assert(k == j as int) by {
                        if k < j { assert(prev[k].name != v.shop); }
                        if k > j { assert(prev[j as int].name != v.shop); }
                    }
                }
                let mut value = fields[j].value.clone();
                value.append(", ");
                value.append(self.vote[i].user_name.as_str());
                let name = fields[j].name.clone();
                let inline = fields[j].inline;
                fields.set(j, EmbedField { name, value, inline });
                assert(fields.deep_view() =~= vote_fields_of(votes.take(i + 1)));
            } else {
                assert(!exists|k: int| is_first_field(prev, v.shop, k));
                fields.push(EmbedField { name: shop.clone(), value: self.vote[i].user_name.clone(), inline: true });
                assert(fields.deep_view() =~= vote_fields_of(votes.take(i + 1)));
            }
            i = i + 1;
        }
        assert(votes.take(self.vote.len() as int) =~= votes);
        fields
    }

    /// The buttons that vote for each shop.
    fn vote_buttons(&self) -> (row: Vec<Button>)
        ensures
            row.deep_view() == self@.shops.map_values(|s: ShopView| vote_button_of(self.message_id, s)),
    {
        let ghost shops = self@.shops;
        let mut row: Vec<Button> = Vec::new();
        let mut i: usize = 0;
        while i < self.shops.len()
            invariant
                i <= self.shops.len(),
                shops == self@.shops,
                row.deep_view() =~= shops.take(i as int).map_values(|s: ShopView| vote_button_of(self.message_id, s)),
            decreases self.shops.len() - i,
        {
            let ghost before = row.deep_view();
            let event = BentoEvent {
                id: self.message_id,
                action: BentoEventAction::VOTE_SHOP,
                arg: self.shops[i].name.clone(),
            };
            row.push(Button { style: ButtonStyle::Primary, label: self.shops[i].name.clone(), event });
            assert(row.deep_view() =~= before.push(vote_button_of(self.message_id, shops[i as int])));
            assert(shops.take(i + 1).map_values(|s: ShopView| vote_button_of(self.message_id, s))
                =~= shops.take(i as int).map_values(|s: ShopView| vote_button_of(self.message_id, s)).push(
                vote_button_of(self.message_id, shops[i as int])));
            i = i + 1;
        }
        assert(shops.take(self.shops.len() as int) =~= shops);
        row
    }

    /// What the vote's message should show now.
    pub fn message_view(&self) -> (view: BentoMessageView)
        ensures
            view.deep_view() == message_of(self@),
    {
        let footer_icon_url = match &self.start_user.avatar_url {
            Some(url) => url.clone(),
            None => self.start_user.default_avatar_url.clone(),
        };
        let mut rows: Vec<Vec<Button>> = Vec::new();
        match self.state {
            BentoState::VOTE => {
                rows.push(self.vote_buttons());
                let mut last: Vec<Button> = Vec::new();
                last.push(Button {
                    style: ButtonStyle::Secondary,
                    label: String::from_str("投票を締め切る"),
                    event: BentoEvent { id: self.message_id, action: BentoEventAction::END_VOTE, arg: String::new() },
                });
                assert(last.deep_view() =~= seq![end_vote_button_of(self.message_id)]);
                rows.push(last);
                assert(rows.deep_view() =~= button_rows_of(self.state, self.message_id, self@.shops));
            },
            BentoState::ROULETTE => {
                let mut only: Vec<Button> = Vec::new();
                only.push(Button {
                    style: ButtonStyle::Success,
                    label: String::from_str("ルーレットを回す"),
                    event: BentoEvent { id: self.message_id, action: BentoEventAction::START_ROULETTE, arg: String::new() },
                });
                assert(only.deep_view() =~= seq![start_button_of(self.message_id)]);
                rows.push(only);
                assert(rows.deep_view() =~= button_rows_of(self.state, self.message_id, self@.shops));
            },
            BentoState::END => {
                assert(rows.deep_view() =~= button_rows_of(self.state, self.message_id, self@.shops));
            },
        }
        let view = BentoMessageView {
            title: String::from_str("ARCH弁当"),
            footer_text: self.start_user.name.clone(),
            footer_icon_url,
            fields: self.vote_fields(),
            rows,
        };
        view
    }

    /// Stores the roulette the service created for this vote and returns
    /// what to do next.
    pub fn roulette_created(
        &mut self,
        client: &RouletteClient,
        response: RouletteCreateResponse,
    ) -> (actions: Vec<BentoAction>)
        requires
            old(self).wf(),
        ensures
            final(self).wf(),
            (final(self)@, actions.deep_view()) == roulette_created_outcome(
                old(self)@,
                client.base_url@,
                response.id@,
                response.secret@,
            ),
    {
        let page = client.page_url(&response.id);
        self.roulette_id = Some(response.id);
        self.roulette_secret = Some(response.secret);
        let mut text = String::from_str("## ルーレットが作成されました。下のリンクから参加できます。\n");
        text.append(page.as_str());
        let mut actions: Vec<BentoAction> = Vec::new();
        actions.push(BentoAction::SendMessage(text));
        actions.push(BentoAction::EditMessage);
        let ghost expected = roulette_created_outcome(old(self)@, client.base_url@, response.id@, response.secret@).1;
        assert(actions.deep_view() =~= expected);
        actions
    }
}

/// The names of the users who voted for `shop`, in the order of the votes.
pub open spec fn voter_names(votes: Seq<VoteView>, shop: Seq<char>) -> Seq<Seq<char>>
    decreases votes.len(),
{
    if votes.len() == 0 {
        Seq::empty()
    } else {
        let earlier = voter_names(votes.drop_last(), shop);
        if votes.last().shop == shop {
            earlier.push(votes.last().user_name)
        } else {
            earlier
        }
    }
}

/// `names` joined by ", ".
pub open spec fn join_names(names: Seq<Seq<char>>) -> Seq<char>
    decreases names.len(),
{
    if names.len() == 0 {
        Seq::empty()
    } else if names.len() == 1 {
        names[0]
    } else {
        join_names(names.drop_last()) + ", "@ + names.last()
    }
}

/// No two fields name the same shop.
pub open spec fn field_names_distinct(fields: Seq<FieldView>) -> bool {
    forall|i: int, j: int|
        0 <= i < fields.len() && 0 <= j < fields.len() && i != j ==> fields[i].name
            != fields[j].name
}

/// Nobody voted for `shop`, so no names are listed for it.
proof fn lemma_no_voters_no_names(votes: Seq<VoteView>, shop: Seq<char>)
    requires
        forall|k: int| 0 <= k < votes.len() ==> votes[k].shop != shop,
    ensures
        voter_names(votes, shop) == Seq::<Seq<char>>::empty(),
    decreases votes.len(),
{
    if votes.len() > 0 {
        lemma_no_voters_no_names(votes.drop_last(), shop);
    }
}

/// The embed groups the votes by shop: each shop voted for has exactly one
/// field, shown inline, every field belongs to a shop that got votes, and a field's value
/// is the names of that shop's voters joined by ", ", in the order they voted.
pub proof fn law_fields_group_votes_by_shop(votes: Seq<VoteView>)
    ensures
        field_names_distinct(vote_fields_of(votes)),
        forall|i: int|
            0 <= i < vote_fields_of(votes).len() ==> {
                &&& voter_names(votes, #[trigger] vote_fields_of(votes)[i].name).len() > 0
                &&& vote_fields_of(votes)[i].inline
                &&& vote_fields_of(votes)[i].value == join_names(
                    voter_names(votes, vote_fields_of(votes)[i].name),
                )
            },
        forall|k: int|
            0 <= k < votes.len() ==> exists|i: int|
                0 <= i < vote_fields_of(votes).len() && #[trigger] vote_fields_of(votes)[i].name
                    == #[trigger] votes[k].shop,
    decreases votes.len(),
{
    if votes.len() > 0 {
        let p = votes.drop_last();
        let v = votes.last();
        let f = vote_fields_of(p);
        law_fields_group_votes_by_shop(p);
        let g = vote_fields_of(votes);
        if exists|i: int| is_first_field(f, v.shop, i) {
            let i = choose|i: int| is_first_field(f, v.shop, i);
            assert(g == f.update(i, FieldView { name: f[i].name, value: f[i].value + ", "@ + v.user_name, inline: f[i].inline }));
            assert forall|n: int| 0 <= n < g.len() implies {
                &&& voter_names(votes, #[trigger] g[n].name).len() > 0
                &&& g[n].inline
                &&& g[n].value == join_names(voter_names(votes, g[n].name))
            } by {
                if n == i {
                    let names = voter_names(p, v.shop);
                    assert(voter_names(votes, v.shop) == names.push(v.user_name));
                    assert(names.push(v.user_name).drop_last() =~= names);
                } else {
                    assert(f[n].name != v.shop);
                    assert(voter_names(votes, f[n].name) == voter_names(p, f[n].name));
                }
            }
            assert forall|k: int| 0 <= k < votes.len() implies exists|n: int|
                0 <= n < g.len() && #[trigger] g[n].name == #[trigger] votes[k].shop by {
                if k == votes.len() - 1 {
                    assert(g[i].name == votes[k].shop);
                } else {
                    assert(votes[k] == p[k]);
                    let n = choose|n: int| 0 <= n < f.len() && f[n].name == p[k].shop;
                    assert(g[n].name == votes[k].shop);
                }
            }
        } else {
            assert forall|n: int| 0 <= n < f.len() implies f[n].name != v.shop by {
                if f[n].name == v.shop {
                    assert(is_first_field(f, v.shop, n));
                }
            }
            assert forall|k: int| 0 <= k < p.len() implies p[k].shop != v.shop by {
                if p[k].shop == v.shop {
                    let n = choose|n: int| 0 <= n < f.len() && f[n].name == p[k].shop;
                    assert(f[n].name == v.shop);
                }
            }
            lemma_no_voters_no_names(p, v.shop);
            assert(g == f.push(FieldView { name: v.shop, value: v.user_name, inline: true }));
            assert forall|n: int| 0 <= n < g.len() implies {
                &&& voter_names(votes, #[trigger] g[n].name).len() > 0
                &&& g[n].inline
                &&& g[n].value == join_names(voter_names(votes, g[n].name))
            } by {
                if n == f.len() {
                    assert(voter_names(votes, v.shop) =~= seq![v.user_name]);
                } else {
                    assert(g[n] == f[n]);
                    assert(voter_names(votes, f[n].name) == voter_names(p, f[n].name));
                }
            }
            assert forall|k: int| 0 <= k < votes.len() implies exists|n: int|
                0 <= n < g.len() && #[trigger] g[n].name == #[trigger] votes[k].shop by {
                if k == votes.len() - 1 {
                    assert(g[f.len() as int].name == votes[k].shop);
                } else {
                    assert(votes[k] == p[k]);
                    let n = choose|n: int| 0 <= n < f.len() && f[n].name == p[k].shop;
                    assert(g[n].name == votes[k].shop);
                }
            }
        }
    }
}

/// The shop `user_id` voted for, if they voted.
pub open spec fn vote_of(votes: Seq<VoteView>, user_id: u64) -> Option<Seq<char>> {
    if has_voted(votes, user_id) {
        Some(votes[choose|i: int| 0 <= i < votes.len() && votes[i].user_id == user_id].shop)
    } else {
        None
    }
}

/// In a list with one vote per user, a user's vote sits at the one position
/// carrying their id.
proof fn lemma_vote_of_at(votes: Seq<VoteView>, i: int)
    requires
        voters_distinct(votes),
        0 <= i < votes.len(),
    ensures
        vote_of(votes, votes[i].user_id) == Some(votes[i].shop),
{
    let k = choose|k: int| 0 <= k < votes.len() && votes[k].user_id == votes[i].user_id;
    assert(votes[i].user_id == votes[i].user_id);
    assert(k == i);
}

/// A vote is read back as written: after `user_id` votes for `shop`, their
/// vote is `shop`, every other user's vote is as before, the list still
/// has one vote per user, and it grew by one exactly when the user had not
/// voted yet.
pub proof fn law_vote_read_after_write(
    votes: Seq<VoteView>,
    user_id: u64,
    user_name: Seq<char>,
    shop: Seq<char>,
    other: u64,
)
    requires
        voters_distinct(votes),
        other != user_id,
    ensures
        vote_of(record_vote(votes, user_id, user_name, shop), user_id) == Some(shop),
        vote_of(record_vote(votes, user_id, user_name, shop), other) == vote_of(votes, other),
        voters_distinct(record_vote(votes, user_id, user_name, shop)),
        record_vote(votes, user_id, user_name, shop).len() == if has_voted(votes, user_id) {
            votes.len()
        } else {
            votes.len() + 1
        },
{
    let r = record_vote(votes, user_id, user_name, shop);
    let p = if has_voted(votes, user_id) {
        choose|i: int| 0 <= i < votes.len() && votes[i].user_id == user_id
    } else {
        votes.len() as int
    };
    assert(r[p].user_id == user_id && r[p].shop == shop);
    assert(voters_distinct(r));
    lemma_vote_of_at(r, p);
    if has_voted(r, other) {
        let k = choose|k: int| 0 <= k < r.len() && r[k].user_id == other;
        assert(k != p);
        assert(r[k] == votes[k]);
        lemma_vote_of_at(r, k);
        lemma_vote_of_at(votes, k);
    } else {
        assert forall|k: int| 0 <= k < votes.len() implies votes[k].user_id != other by {
            if k != p {
                assert(r[k] == votes[k]);
            }
        }
    }
}

/// Every press keeps the vote well formed, and so does storing the roulette.
pub proof fn law_decisions_keep_vote_well_formed(
    inst: BentoInstanceView,
    event: BentoEventView,
    user_id: u64,
    user_name: Seq<char>,
    base_url: Seq<char>,
    id: Seq<char>,
    secret: Seq<char>,
)
    requires
        instance_wf(inst),
    ensures
        instance_wf(interaction_outcome(inst, event, user_id, user_name).0),
        instance_wf(roulette_created_outcome(inst, base_url, id, secret).0),
{
    let other: u64 = if user_id == 0 { 1 } else { 0 };
    law_vote_read_after_write(inst.votes, user_id, user_name, event.arg, other);
}

/// Only the user who started the vote can close it or spin the roulette:
/// such a press by anyone else changes nothing and is answered with a refusal.
pub proof fn law_only_starter_controls_the_vote(
    inst: BentoInstanceView,
    event: BentoEventView,
    user_id: u64,
    user_name: Seq<char>,
)
    requires
        user_id != inst.start_user.id,
        event.action != BentoEventAction::VOTE_SHOP,
    ensures
        interaction_outcome(inst, event, user_id, user_name).0 == inst,
        interaction_outcome(inst, event, user_id, user_name).1 == if event.action
            == BentoEventAction::END_VOTE {
            seq![ActionView::Reply(close_refused_reply())]
        } else {
            seq![ActionView::Reply(start_refused_reply())]
        },
{
}

/// Voting never moves the vote to another phase, touches the roulette or the
/// shop offer; it only changes the presser's vote.
pub proof fn law_voting_keeps_phase(
    inst: BentoInstanceView,
    event: BentoEventView,
    user_id: u64,
    user_name: Seq<char>,
)
    requires
        event.action == BentoEventAction::VOTE_SHOP,
    ensures
        ({
            let after = interaction_outcome(inst, event, user_id, user_name).0;
            &&& after.state == inst.state
            &&& after.roulette_id == inst.roulette_id
            &&& after.roulette_secret == inst.roulette_secret
            &&& after.shops == inst.shops
            &&& after.start_user == inst.start_user
            &&& after.message_id == inst.message_id
        }),
{
}

/// The phases advance as the starter drives them: closing moves to the
/// roulette phase and asks for a roulette with one slot per vote, labelled
/// with the shop voted for; spinning moves to the end and spins the roulette
/// the vote holds.
pub proof fn law_starter_drives_phases(
    inst: BentoInstanceView,
    event: BentoEventView,
    user_name: Seq<char>,
)
    requires
        event.action != BentoEventAction::VOTE_SHOP,
    ensures
        ({
            let (after, actions) = interaction_outcome(inst, event, inst.start_user.id, user_name);
            &&& event.action == BentoEventAction::END_VOTE ==> {
                &&& after.state == BentoState::ROULETTE
                &&& after.votes == inst.votes
                &&& actions[1] matches ActionView::CreateRoulette(req)
                &&& req.items.len() == inst.votes.len()
                &&& forall|i: int| 0 <= i < inst.votes.len() ==> #[trigger] req.items[i] == inst.votes[i].shop
            }
            &&& event.action == BentoEventAction::START_ROULETTE ==> {
                &&& after.state == BentoState::END
                &&& actions[1] == ActionView::StartRoulette(inst.roulette_id.unwrap(), inst.roulette_secret.unwrap())
            }
        }),
{
}

/// The vote is settled: it is still open, or it holds its roulette.
pub open spec fn settled(inst: BentoInstanceView) -> bool {
    inst.state == BentoState::VOTE || inst.roulette_id is Some
}

/// Every button that a message shows can be pressed by anyone without the
/// press being one the vote cannot honour.
pub open spec fn buttons_pressable(inst: BentoInstanceView) -> bool {
    forall|r: int, b: int, presser: u64|
        0 <= r < message_of(inst).rows.len() && 0 <= b < message_of(inst).rows[r].len()
            ==> !#[trigger] start_without_roulette(inst, message_of(inst).rows[r][b].event, presser)
}

/// A settled vote shows only pressable buttons.
proof fn lemma_settled_buttons_pressable(inst: BentoInstanceView)
    requires
        settled(inst),
    ensures
        buttons_pressable(inst),
{
    let rows = message_of(inst).rows;
    assert forall|r: int, b: int, presser: u64|
        0 <= r < rows.len() && 0 <= b < rows[r].len() implies !#[trigger] start_without_roulette(
        inst,
        message_of(inst).rows[r][b].event,
        presser,
    ) by {
        if inst.state == BentoState::VOTE {
            if r == 0 {
                assert(rows[0][b] == vote_button_of(inst.message_id, inst.shops[b]));
            }
        }
    }
}

/// Every button on the message belongs to this vote: pressing it sends an
/// event carrying the id of the vote's message.
pub proof fn law_buttons_address_their_vote(inst: BentoInstanceView)
    ensures
        forall|r: int, b: int|
            0 <= r < message_of(inst).rows.len() && 0 <= b < message_of(inst).rows[r].len()
                ==> #[trigger] message_of(inst).rows[r][b].event.id == inst.message_id,
{
    let rows = message_of(inst).rows;
    assert forall|r: int, b: int| 0 <= r < rows.len() && 0 <= b < rows[r].len() implies #[trigger] message_of(
        inst,
    ).rows[r][b].event.id == inst.message_id by {
        if inst.state == BentoState::VOTE && r == 0 {
            assert(rows[0][b] == vote_button_of(inst.message_id, inst.shops[b]));
        }
    }
}

/// A message is only redrawn when every button it will show can be pressed:
/// from a settled vote, each decision that asks for a redraw leaves a vote
/// whose buttons are all pressable, and storing the roulette settles the vote.
pub proof fn law_redraw_shows_pressable_buttons(
    inst: BentoInstanceView,
    event: BentoEventView,
    user_id: u64,
    user_name: Seq<char>,
    base_url: Seq<char>,
    id: Seq<char>,
    secret: Seq<char>,
)
    requires
        settled(inst),
        !start_without_roulette(inst, event, user_id),
    ensures
        interaction_outcome(inst, event, user_id, user_name).1.contains(ActionView::EditMessage)
            ==> buttons_pressable(interaction_outcome(inst, event, user_id, user_name).0),
        settled(roulette_created_outcome(inst, base_url, id, secret).0),
        buttons_pressable(roulette_created_outcome(inst, base_url, id, secret).0),
{
    let (after, actions) = interaction_outcome(inst, event, user_id, user_name);
    if actions.contains(ActionView::EditMessage) {
        if event.action == BentoEventAction::END_VOTE {
            let k = choose|k: int| 0 <= k < actions.len() && actions[k] == ActionView::EditMessage;
            assert(false);
        }
        assert(settled(after));
        lemma_settled_buttons_pressable(after);
    }
    lemma_settled_buttons_pressable(roulette_created_outcome(inst, base_url, id, secret).0);
}

/// Pressing the vote button of a shop, as the open vote's message shows it,
/// records that shop as the presser's vote.
pub proof fn law_vote_button_votes_for_its_shop(
    inst: BentoInstanceView,
    b: int,
    user_id: u64,
    user_name: Seq<char>,
)
    requires
        instance_wf(inst),
        inst.state == BentoState::VOTE,
        0 <= b < inst.shops.len(),
    ensures
        ({
            let button = message_of(inst).rows[0][b];
            let after = interaction_outcome(inst, button.event, user_id, user_name).0;
            &&& button.label == inst.shops[b].name
            &&& vote_of(after.votes, user_id) == Some(inst.shops[b].name)
        }),
{
    let button = message_of(inst).rows[0][b];
    assert(button == vote_button_of(inst.message_id, inst.shops[b]));
    let other: u64 = if user_id == 0 { 1 } else { 0 };
    law_vote_read_after_write(inst.votes, user_id, user_name, inst.shops[b].name, other);
}

/// Every vote press, whether it is a user's first vote or a change of mind,
/// is answered with the shop voted for and asks for the message to be
/// redrawn, and nothing else.
pub proof fn law_every_vote_is_answered_and_redrawn(
    inst: BentoInstanceView,
    event: BentoEventView,
    user_id: u64,
    user_name: Seq<char>,
)
    requires
        event.action == BentoEventAction::VOTE_SHOP,
    ensures
        interaction_outcome(inst, event, user_id, user_name).1 == seq![
            ActionView::Reply("`"@ + event.arg + "` へ投票しました。"@),
            ActionView::EditMessage,
        ],
{
}

/// What the starter's close and spin presses answer and ask for: closing
/// answers that the vote is closed and asks for a roulette titled
/// "ARCH弁当" with one slot per vote, labelled with the shop of that vote;
/// spinning answers that the roulette starts, spins the stored roulette with
/// its stored secret and redraws the message.
pub proof fn law_starter_presses_answer(inst: BentoInstanceView, event: BentoEventView, user_name: Seq<char>)
    ensures
        event.action == BentoEventAction::END_VOTE ==> {
            let actions = interaction_outcome(inst, event, inst.start_user.id, user_name).1;
            &&& actions.len() == 2
            &&& actions[0] == ActionView::Reply("投票を締め切りました。ルーレットを作成します。"@)
            &&& actions[1] matches ActionView::CreateRoulette(req)
            &&& req.title == "ARCH弁当"@
            &&& req.items.len() == inst.votes.len()
            &&& forall|i: int| 0 <= i < inst.votes.len() ==> #[trigger] req.items[i] == inst.votes[i].shop
        },
        event.action == BentoEventAction::START_ROULETTE ==> interaction_outcome(
            inst,
            event,
            inst.start_user.id,
            user_name,
        ).1 == seq![
            ActionView::Reply("ルーレットを開始しました。"@),
            ActionView::StartRoulette(inst.roulette_id.unwrap(), inst.roulette_secret.unwrap()),
            ActionView::EditMessage,
        ],
{
}

/// What other users' close and spin presses are answered with.
pub proof fn law_refusals_are_answered(
    inst: BentoInstanceView,
    event: BentoEventView,
    user_id: u64,
    user_name: Seq<char>,
)
    requires
        user_id != inst.start_user.id,
    ensures
        event.action == BentoEventAction::END_VOTE ==> interaction_outcome(inst, event, user_id, user_name).1
            == seq![ActionView::Reply("投票の作成者のみ締め切り可能です。"@)],
        event.action == BentoEventAction::START_ROULETTE ==> interaction_outcome(
            inst,
            event,
            user_id,
            user_name,
        ).1 == seq![ActionView::Reply("投票の作成者のみ可能です。"@)],
{
}

/// In every phase the message shows the tally: one inline field per shop
/// that got votes, and no other field, whose value is the names of that
/// shop's voters joined by ", " in the order they voted; its title is
/// "ARCH弁当" and its footer names the starter, with their picture, or the
/// default picture when they have none.
pub proof fn law_message_shows_tally_in_every_phase(inst: BentoInstanceView)
    ensures
        ({
            let m = message_of(inst);
            &&& m.title == "ARCH弁当"@
            &&& m.footer_text == inst.start_user.name
            &&& m.footer_icon_url == (match inst.start_user.avatar_url {
                Some(url) => url,
                None => inst.start_user.default_avatar_url,
            })
            &&& field_names_distinct(m.fields)
            &&& forall|i: int|
                0 <= i < m.fields.len() ==> {
                    &&& voter_names(inst.votes, #[trigger] m.fields[i].name).len() > 0
                    &&& m.fields[i].inline
                    &&& m.fields[i].value == join_names(voter_names(inst.votes, m.fields[i].name))
                }
            &&& forall|k: int|
                0 <= k < inst.votes.len() ==> exists|i: int|
                    0 <= i < m.fields.len() && #[trigger] m.fields[i].name == #[trigger] inst.votes[k].shop
        }),
{
    law_fields_group_votes_by_shop(inst.votes);
}

/// The buttons of each phase: while voting, a first row with one primary
/// button per shop, labelled with the shop's name and voting for it, and a
/// second row with the secondary "投票を締め切る" button that closes the vote;
/// once closed, a single success button "ルーレットを回す" that spins the
/// roulette; at the end, no buttons. Every button's event names this vote.
pub proof fn law_buttons_of_each_phase(inst: BentoInstanceView)
    ensures
        ({
            let rows = message_of(inst).rows;
            let id = inst.message_id;
            &&& inst.state == BentoState::VOTE ==> {
                &&& rows.len() == 2
                &&& rows[0].len() == inst.shops.len()
                &&& forall|b: int|
                    0 <= b < inst.shops.len() ==> #[trigger] rows[0][b] == (ButtonView {
                        style: ButtonStyle::Primary,
                        label: inst.shops[b].name,
                        event: BentoEventView {
                            id,
                            action: BentoEventAction::VOTE_SHOP,
                            arg: inst.shops[b].name,
                        },
                    })
                &&& rows[1] == seq![
                    ButtonView {
                        style: ButtonStyle::Secondary,
                        label: "投票を締め切る"@,
                        event: BentoEventView { id, action: BentoEventAction::END_VOTE, arg: Seq::empty() },
                    },
                ]
            }
            &&& inst.state == BentoState::ROULETTE ==> rows == seq![
                seq![
                    ButtonView {
                        style: ButtonStyle::Success,
                        label: "ルーレットを回す"@,
                        event: BentoEventView {
                            id,
                            action: BentoEventAction::START_ROULETTE,
                            arg: Seq::empty(),
                        },
                    },
                ],
            ]
            &&& inst.state == BentoState::END ==> rows.len() == 0
        }),
{
}

/// Storing the roulette service's answer keeps its id and secret exactly as
/// given, changes nothing else of the vote, posts the announcement with the
/// roulette's page link and redraws the message.
pub proof fn law_roulette_created_keeps_the_answer(
    inst: BentoInstanceView,
    base_url: Seq<char>,
    id: Seq<char>,
    secret: Seq<char>,
)
    ensures
        ({
            let (after, actions) = roulette_created_outcome(inst, base_url, id, secret);
            &&& after.roulette_id == Some(id)
            &&& after.roulette_secret == Some(secret)
            &&& after.state == inst.state
            &&& after.votes == inst.votes
            &&& after.shops == inst.shops
            &&& after.start_user == inst.start_user
            &&& after.message_id == inst.message_id
            &&& actions == seq![
                ActionView::SendMessage(
                    "## ルーレットが作成されました。下のリンクから参加できます。\n"@ + base_url
                        + "/roulette/"@ + id,
                ),
                ActionView::EditMessage,
            ]
        }),
{
    assert(roulette_announcement_of(base_url, id) =~= "## ルーレットが作成されました。下のリンクから参加できます。\n"@
        + base_url + "/roulette/"@ + id);
}

/// How a vote changes the list of votes: a user who already voted keeps
/// their place and the name recorded when they first voted, and only their
/// shop changes; a first-time voter is added at the end under the name they
/// have now. No other vote changes.
pub proof fn law_vote_keeps_places_and_names(
    votes: Seq<VoteView>,
    user_id: u64,
    user_name: Seq<char>,
    shop: Seq<char>,
)
    requires
        voters_distinct(votes),
    ensures
        (exists|i: int| 0 <= i < votes.len() && votes[i].user_id == user_id) ==> {
            let after = record_vote(votes, user_id, user_name, shop);
            &&& after.len() == votes.len()
            &&& forall|k: int|
                0 <= k < votes.len() ==> {
                    &&& (#[trigger] after[k]).user_id == votes[k].user_id
                    &&& after[k].user_name == votes[k].user_name
                    &&& after[k].shop == if votes[k].user_id == user_id { shop } else { votes[k].shop }
                }
        },
        (forall|i: int| 0 <= i < votes.len() ==> votes[i].user_id != user_id) ==> record_vote(
            votes,
            user_id,
            user_name,
            shop,
        ) == votes.push(VoteView { user_id, user_name, shop }),
{
    if has_voted(votes, user_id) {
        let i = choose|i: int| 0 <= i < votes.len() && votes[i].user_id == user_id;
        assert forall|k: int| 0 <= k < votes.len() && k != i implies votes[k].user_id != user_id by {}
    }
}

} // verus!
