//! The conversation with one owner: which reply is awaited, and what each
//! command or reply leads to.
//!
//! The transport hands in what it received and sends out what comes back.
//! Nothing here waits, and no input of an owner can bring the conversation
//! into a state that is not one of [`State`].

use crate::crypto::{scheme_of, Scheme};
use crate::error::WalletError;
use crate::providers::{
    is_generated, is_signature_text, public_key_of, sign_failure, stored_keypair,
};
use crate::schemes::Schemes;
use crate::transaction::{amount_of, canonical_text, parse_amount, signed_text};
use crate::transaction::{SignedTransaction, Transaction};
use crate::users::{User, UserView, UsersData};
use vstd::prelude::*;
use vstd::utf8::encode_utf8;

verus! {

/// Where the conversation with an owner stands.
#[derive(Debug, PartialEq, Eq)]
pub enum State {
    /// Nothing is awaited; commands are taken.
    Start,
    /// The recipient of a transfer is awaited.
    ReceiveTo,
    /// The amount of a transfer to `to` is awaited.
    ReceiveAmount { to: String },
}

/// A state as plain values.
pub enum StateView {
    Start,
    ReceiveTo,
    ReceiveAmount { to: Seq<char> },
}

impl View for State {
    type V = StateView;

    open spec fn view(&self) -> StateView {
        match self {
            State::Start => StateView::Start,
            State::ReceiveTo => StateView::ReceiveTo,
            State::ReceiveAmount { to } => StateView::ReceiveAmount { to: to@ },
        }
    }
}

impl Clone for State {
    fn clone(&self) -> (copy: Self)
        ensures
            copy@ == self@,
    {
        match self {
            State::Start => State::Start,
            State::ReceiveTo => State::ReceiveTo,
            State::ReceiveAmount { to } => State::ReceiveAmount { to: to.clone() },
        }
    }
}

impl Default for State {
    fn default() -> (state: Self)
        ensures
            state@ == StateView::Start,
    {
        State::Start
    }
}

/// What an owner can ask for while nothing is awaited.
#[derive(Clone, Copy, Debug, PartialEq, Eq, Structural)]
pub enum Command {
    /// List the commands.
    Help,
    /// Make a wallet.
    CreateWallet,
    /// Show the address.
    GetMyAddress,
    /// Sign a transfer.
    SignTx,
}

/// What goes back to the owner.
#[derive(Debug, PartialEq, Eq)]
pub enum Reply {
    /// Nothing is sent.
    Nothing,
    /// The list of commands.
    Help,
    /// The owner has a wallet already; its public key is shown.
    AlreadyHaveKeys { pubkey: String },
    /// The schemes to choose from, one button each.
    ChooseScheme,
    /// The owner's address.
    Address { pubkey: String },
    /// There is no wallet to show an address of.
    CreateWalletFirst,
    /// Asks for the recipient.
    ToWhom,
    /// Asks for the amount.
    Amount,
    /// Asks for a recipient again, after a reply that held no text.
    SendPlainText,
    /// Asks for an amount again, after a reply that was no number.
    SendNumber,
    /// A wallet was made under `scheme`.
    Created { scheme: String, pubkey: String },
    /// The signed transfer.
    Signed(SignedTransaction),
}

/// A reply as plain values.
pub enum ReplyView {
    Nothing,
    Help,
    AlreadyHaveKeys { pubkey: Seq<char> },
    ChooseScheme,
    Address { pubkey: Seq<char> },
    CreateWalletFirst,
    ToWhom,
    Amount,
    SendPlainText,
    SendNumber,
    Created { scheme: Seq<char>, pubkey: Seq<char> },
    Signed { from: Seq<char>, to: Seq<char>, amount: u32, sign: Seq<char> },
}

impl View for Reply {
    type V = ReplyView;

    open spec fn view(&self) -> ReplyView {
        match self {
            Reply::Nothing => ReplyView::Nothing,
            Reply::Help => ReplyView::Help,
            Reply::AlreadyHaveKeys { pubkey } => ReplyView::AlreadyHaveKeys { pubkey: pubkey@ },
            Reply::ChooseScheme => ReplyView::ChooseScheme,
            Reply::Address { pubkey } => ReplyView::Address { pubkey: pubkey@ },
            Reply::CreateWalletFirst => ReplyView::CreateWalletFirst,
            Reply::ToWhom => ReplyView::ToWhom,
            Reply::Amount => ReplyView::Amount,
            Reply::SendPlainText => ReplyView::SendPlainText,
            Reply::SendNumber => ReplyView::SendNumber,
            Reply::Created { scheme, pubkey } => ReplyView::Created {
                scheme: scheme@,
                pubkey: pubkey@,
            },
            Reply::Signed(signed) => ReplyView::Signed {
                from: signed.from@,
                to: signed.to@,
                amount: signed.amount,
                sign: signed.sign@,
            },
        }
    }
}

impl ReplyView {
    /// The text of the message that carries the reply.
    pub open spec fn text(self) -> Seq<char> {
        match self {
            ReplyView::Nothing => Seq::empty(),
            ReplyView::Help =>
                "These commands are supported:\n\n/help \u{2014} display this text.\n/createwallet \u{2014} create wallet.\n/getmyaddress \u{2014} get address.\n/signtx \u{2014} sign tx."@,
            ReplyView::AlreadyHaveKeys { pubkey } => "Already have keys. Your pub key:\n "@
                + pubkey,
            ReplyView::ChooseScheme => "Signature schemes:"@,
            ReplyView::Address { pubkey } => "address: "@ + pubkey,
            ReplyView::CreateWalletFirst =>
                "First, please create a wallet with the command: /createwallet"@,
            ReplyView::ToWhom => "To whom"@,
            ReplyView::Amount => "Amount?"@,
            ReplyView::SendPlainText => "Send me plain text."@,
            ReplyView::SendNumber => "Send me a number."@,
            ReplyView::Created { scheme, pubkey } => "You chose: "@ + scheme
                + "\n Your pub key: "@ + pubkey,
            ReplyView::Signed { from, to, amount, sign } => signed_text(from, to, amount, sign),
        }
    }

    /// The rows of buttons under the message: none, but for the choice of a
    /// scheme.
    pub open spec fn keyboard(self) -> Seq<Seq<Seq<char>>> {
        match self {
            ReplyView::ChooseScheme => scheme_buttons(),
            _ => Seq::empty(),
        }
    }
}

/// The buttons for the choice of a scheme: a row for each scheme, labelled
/// with its tag.
pub open spec fn scheme_buttons() -> Seq<Seq<Seq<char>>> {
    seq![seq![Scheme::Ed25519.tag()], seq![Scheme::Sr25519.tag()]]
}

/// The rows of buttons for the choice of a scheme. A button answers with
/// its label.
pub fn make_keyboard() -> (keyboard: Vec<Vec<String>>)
    ensures
        keyboard.deep_view() == scheme_buttons(),
{
    let mut keyboard: Vec<Vec<String>> = Vec::new();
    let mut first: Vec<String> = Vec::new();
    first.push(Scheme::Ed25519.name());
    assert(first.deep_view() =~= seq![Scheme::Ed25519.tag()]);
    keyboard.push(first);
    let mut second: Vec<String> = Vec::new();
    second.push(Scheme::Sr25519.name());
    assert(second.deep_view() =~= seq![Scheme::Sr25519.tag()]);
    keyboard.push(second);
    assert(keyboard.deep_view() =~= scheme_buttons());
    keyboard
}

impl Reply {
    /// The text of the message that carries the reply.
    pub fn text(&self) -> (text: String)
        ensures
            text@ == self@.text(),
    {
        match self {
            Reply::Nothing => String::new(),
            Reply::Help => String::from_str(
                "These commands are supported:\n\n/help \u{2014} display this text.\n/createwallet \u{2014} create wallet.\n/getmyaddress \u{2014} get address.\n/signtx \u{2014} sign tx.",
            ),
            Reply::AlreadyHaveKeys { pubkey } => String::from_str(
                "Already have keys. Your pub key:\n ",
            ).concat(pubkey.as_str()),
            Reply::ChooseScheme => String::from_str("Signature schemes:"),
            Reply::Address { pubkey } => String::from_str("address: ").concat(pubkey.as_str()),
            Reply::CreateWalletFirst => String::from_str(
                "First, please create a wallet with the command: /createwallet",
            ),
            Reply::ToWhom => String::from_str("To whom"),
            Reply::Amount => String::from_str("Amount?"),
            Reply::SendPlainText => String::from_str("Send me plain text."),
            Reply::SendNumber => String::from_str("Send me a number."),
            Reply::Created { scheme, pubkey } => String::from_str("You chose: ").concat(
                scheme.as_str(),
            ).concat("\n Your pub key: ").concat(pubkey.as_str()),
            Reply::Signed(signed) => signed.text(),
        }
    }

    /// The rows of buttons under the message.
    pub fn keyboard(&self) -> (keyboard: Vec<Vec<String>>)
        ensures
            keyboard.deep_view() == self@.keyboard(),
    {
        match self {
            Reply::ChooseScheme => make_keyboard(),
            _ => {
                let keyboard: Vec<Vec<String>> = Vec::new();
                assert(keyboard.deep_view() =~= Seq::<Seq<Seq<char>>>::empty());
                keyboard
            },
        }
    }
}

/// What the transport received from an owner.
#[derive(Debug, PartialEq, Eq)]
pub enum Event {
    /// A message that is one of the commands.
    Command(Command),
    /// A message with any other text.
    Text(String),
    /// A message without text.
    Other,
}

/// An event as plain values.
pub enum EventView {
    Command(Command),
    Text(Seq<char>),
    Other,
}

impl View for Event {
    type V = EventView;

    open spec fn view(&self) -> EventView {
        match self {
            Event::Command(command) => EventView::Command(*command),
            Event::Text(text) => EventView::Text(text@),
            Event::Other => EventView::Other,
        }
    }
}

/// What a command does while a reply is awaited. The choice is made where
/// the conversation is set up, once.
#[derive(Clone, Copy, Debug, PartialEq, Eq, Structural)]
pub enum MidFlow {
    /// The transfer in progress is dropped and the command is served.
    Reset,
    /// The command is turned down and the awaited reply is asked for again.
    Reject,
}

/// A text that may be missing, as plain values.
pub open spec fn text_view(text: Option<String>) -> Option<Seq<char>> {
    match text {
        Some(text) => Some(text@),
        None => None,
    }
}

/// What was replied or what went wrong, as plain values.
pub open spec fn outcome_view(outcome: Result<Reply, WalletError>) -> Result<
    ReplyView,
    WalletError,
> {
    match outcome {
        Ok(reply) => Ok(reply@),
        Err(e) => Err(e),
    }
}

/// The answer to the wish for a wallet: the key that is there, or the
/// schemes to choose from.
pub open spec fn wallet_reply(users: Map<Seq<char>, UserView>, owner: Seq<char>) -> ReplyView {
    match public_key_of(users, owner) {
        Ok(pubkey) => ReplyView::AlreadyHaveKeys { pubkey },
        Err(_) => ReplyView::ChooseScheme,
    }
}

/// The answer to the wish for the address.
pub open spec fn address_reply(users: Map<Seq<char>, UserView>, owner: Seq<char>) -> ReplyView {
    match public_key_of(users, owner) {
        Ok(pubkey) => ReplyView::Address { pubkey },
        Err(_) => ReplyView::CreateWalletFirst,
    }
}

/// Where a command leads while nothing is awaited, and the answer to it.
pub open spec fn command_step(
    users: Map<Seq<char>, UserView>,
    owner: Seq<char>,
    command: Command,
) -> (StateView, ReplyView) {
    match command {
        Command::Help => (StateView::Start, ReplyView::Help),
        Command::CreateWallet => (StateView::Start, wallet_reply(users, owner)),
        Command::GetMyAddress => (StateView::Start, address_reply(users, owner)),
        Command::SignTx => (StateView::ReceiveTo, ReplyView::ToWhom),
    }
}

/// Where a reply leads while the recipient is awaited: any text that is
/// not empty is the recipient.
pub open spec fn recipient_step(reply: Option<Seq<char>>) -> (StateView, ReplyView) {
    if reply is Some && reply->0.len() > 0 {
        (StateView::ReceiveAmount { to: reply->0 }, ReplyView::Amount)
    } else {
        (StateView::ReceiveTo, ReplyView::SendPlainText)
    }
}

/// The amount in a reply, if it holds one.
pub open spec fn amount_in(reply: Option<Seq<char>>) -> Option<u32> {
    match reply {
        Some(text) => amount_of(text),
        None => None,
    }
}

/// The scheme that signs for `owner`: the one that the owner's record names.
pub open spec fn sign_route(users: Map<Seq<char>, UserView>, owner: Seq<char>) -> Result<
    Scheme,
    WalletError,
> {
    if !users.contains_key(owner) {
        Err(WalletError::NotFound)
    } else {
        match scheme_of(users[owner].sig_scheme) {
            Some(scheme) => Ok(scheme),
            None => Err(WalletError::UnknownScheme),
        }
    }
}

/// Why `message` cannot be signed for `owner`, if it cannot.
pub open spec fn signing_failure(
    users: Map<Seq<char>, UserView>,
    owner: Seq<char>,
    message: Seq<u8>,
) -> Option<WalletError> {
    match sign_route(users, owner) {
        Err(e) => Some(e),
        Ok(scheme) => sign_failure(users, owner, scheme, message),
    }
}

/// The bytes that are signed for a transfer: those of its text.
pub open spec fn signed_bytes(from: Seq<char>, to: Seq<char>, amount: u32) -> Seq<u8> {
    encode_utf8(canonical_text(from, to, amount))
}

/// Whether a reply, given while the amount of a transfer to `to` is awaited,
/// leads to `next` with `outcome`.
///
/// A reply that is no amount changes nothing and is answered with the
/// request for a number. An amount makes the transfer; it is signed under
/// the scheme of the owner's record, the conversation is over and the signed
/// transfer goes out. Where signing fails, the failure goes out and the
/// amount stays awaited.
pub open spec fn is_signing(
    users: Map<Seq<char>, UserView>,
    owner: Seq<char>,
    reply: Option<Seq<char>>,
    to: Seq<char>,
    next: StateView,
    outcome: Result<ReplyView, WalletError>,
) -> bool {
    match amount_in(reply) {
        None => next == (StateView::ReceiveAmount { to }) && outcome == Ok::<
            ReplyView,
            WalletError,
        >(ReplyView::SendNumber),
        Some(amount) => match signing_failure(users, owner, signed_bytes(owner, to, amount)) {
            Some(e) => next == (StateView::ReceiveAmount { to }) && outcome == Err::<
                ReplyView,
                WalletError,
            >(e),
            None => {
                &&& next == StateView::Start
                &&& outcome matches Ok(ReplyView::Signed { from, to: recipient, amount: sum, sign })
                &&& from == owner
                &&& recipient == to
                &&& sum == amount
                &&& is_signature_text(
                    sign_route(users, owner)->Ok_0,
                    stored_keypair(users, owner)->Ok_0,
                    signed_bytes(owner, to, amount),
                    sign,
                )
            },
        },
    }
}

/// The request for what is awaited in `state`.
pub open spec fn prompt(state: StateView) -> ReplyView {
    match state {
        StateView::Start => ReplyView::Nothing,
        StateView::ReceiveTo => ReplyView::ToWhom,
        StateView::ReceiveAmount { to } => ReplyView::Amount,
    }
}

/// The text of an event that is no command.
pub open spec fn event_text(event: EventView) -> Option<Seq<char>> {
    match event {
        EventView::Text(text) => Some(text),
        _ => None,
    }
}

/// Whether `event`, met in `state`, leads to `next` with `outcome`.
pub open spec fn is_step(
    policy: MidFlow,
    state: StateView,
    users: Map<Seq<char>, UserView>,
    owner: Seq<char>,
    event: EventView,
    next: StateView,
    outcome: Result<ReplyView, WalletError>,
) -> bool {
    if event is Command && (state is Start || policy == MidFlow::Reset) {
        next == command_step(users, owner, event->Command_0).0 && outcome == Ok::<
            ReplyView,
            WalletError,
        >(command_step(users, owner, event->Command_0).1)
    } else if event is Command {
        next == state && outcome == Ok::<ReplyView, WalletError>(prompt(state))
    } else {
        match state {
            StateView::Start => next == state && outcome == Ok::<ReplyView, WalletError>(
                ReplyView::Nothing,
            ),
            StateView::ReceiveTo => next == recipient_step(event_text(event)).0 && outcome == Ok::<
                ReplyView,
                WalletError,
            >(recipient_step(event_text(event)).1),
            StateView::ReceiveAmount { to } => is_signing(
                users,
                owner,
                event_text(event),
                to,
                next,
                outcome,
            ),
        }
    }
}

/// Whether the choice of the scheme tagged `tag` by `owner` leads from the
/// store `before` to `after` with `outcome`.
///
/// A tag of a supported scheme makes a wallet for an owner that has none.
/// Any other tag is `UnknownScheme`, a second wallet is `AlreadyExists`, and
/// neither writes anything.
pub open spec fn is_choice(
    before: Map<Seq<char>, UserView>,
    tag: Seq<char>,
    owner: Seq<char>,
    after: Map<Seq<char>, UserView>,
    outcome: Result<ReplyView, WalletError>,
) -> bool {
    match scheme_of(tag) {
        None => after == before && outcome == Err::<ReplyView, WalletError>(
            WalletError::UnknownScheme,
        ),
        Some(scheme) => if before.contains_key(owner) {
            after == before && outcome == Err::<ReplyView, WalletError>(
                WalletError::AlreadyExists,
            )
        } else {
            &&& outcome matches Ok(ReplyView::Created { scheme: chosen, pubkey })
            &&& chosen == tag
            &&& is_generated(before, owner, scheme, after, pubkey)
        },
    }
}

/// Answers the list of commands.
pub fn help_message() -> (reply: Reply)
    ensures
        reply@ == ReplyView::Help,
{
    Reply::Help
}

/// Answers the wish for a wallet: shows the key of the wallet that is there,
/// or the schemes to choose from. No key is made here.
pub fn create_wallet_message(users: &UsersData, username: &String) -> (reply: Reply)
    ensures
        reply@ == wallet_reply(users@, username@),
{
    match User::find(users, username) {
        Ok(user) => Reply::AlreadyHaveKeys { pubkey: user.pubkey },
        Err(_) => Reply::ChooseScheme,
    }
}

/// Answers the wish for the address.
pub fn get_address_message(users: &UsersData, username: &String) -> (reply: Reply)
    ensures
        reply@ == address_reply(users@, username@),
{
    match User::find(users, username) {
        Ok(user) => Reply::Address { pubkey: user.pubkey },
        Err(_) => Reply::CreateWalletFirst,
    }
}

/// Asks for the recipient of a transfer.
pub fn signtx_message() -> (reply: Reply)
    ensures
        reply@ == ReplyView::ToWhom,
{
    Reply::ToWhom
}

/// Serves a command while nothing is awaited.
pub fn message_handler(users: &UsersData, username: &String, command: Command) -> (next: (
    State,
    Reply,
))
    ensures
        next.0@ == command_step(users@, username@, command).0,
        next.1@ == command_step(users@, username@, command).1,
{
    match command {
        Command::Help => (State::Start, help_message()),
        Command::CreateWallet => (State::Start, create_wallet_message(users, username)),
        Command::GetMyAddress => (State::Start, get_address_message(users, username)),
        Command::SignTx => (State::ReceiveTo, signtx_message()),
    }
}

/// Takes the reply to the request for a recipient.
pub fn receive_to(text: Option<String>) -> (next: (State, Reply))
    ensures
        next.0@ == recipient_step(text_view(text)).0,
        next.1@ == recipient_step(text_view(text)).1,
{
    match text {
        Some(text) => {
            if text.as_str().is_empty() {
                (State::ReceiveTo, Reply::SendPlainText)
            } else {
                (State::ReceiveAmount { to: text }, Reply::Amount)
            }
        },
        None => (State::ReceiveTo, Reply::SendPlainText),
    }
}

/// Takes the reply to the request for an amount and, where it holds one,
/// signs the transfer from `username` to `to`.
pub fn signing(users: &UsersData, username: &String, text: Option<String>, to: String) -> (next: (
    State,
    Result<Reply, WalletError>,
))
    ensures
        is_signing(users@, username@, text_view(text), to@, next.0@, outcome_view(next.1)),
{
    let parsed = match &text {
        Some(text) => parse_amount(text.as_str()),
        None => Err(WalletError::InvalidInput),
    };
    let amount = match parsed {
        Ok(amount) => amount,
        Err(_) => { return (State::ReceiveAmount { to }, Ok(Reply::SendNumber)); },
    };
    let scheme = match User::find(users, username) {
        Ok(user) => user.sig_scheme,
        Err(e) => { return (State::ReceiveAmount { to }, Err(e)); },
    };
    let schm = match Schemes::create_entity(scheme.as_str(), username.clone()) {
        Ok(schm) => schm,
        Err(e) => { return (State::ReceiveAmount { to }, Err(e)); },
    };
    let tx = Transaction { from: username.clone(), to: to.clone(), amount };
    match schm.sign(users, tx.canonical()) {
        Ok(sign) => (State::Start, Ok(Reply::Signed(tx.with_signature(sign)))),
        Err(e) => (State::ReceiveAmount { to }, Err(e)),
    }
}

/// Takes the choice of a scheme and makes the wallet of `username` under it.
pub fn callback_handler(users: &mut UsersData, scheme: &str, username: String) -> (reply: Result<
    Reply,
    WalletError,
>)
    ensures
        is_choice(old(users)@, scheme@, username@, final(users)@, outcome_view(reply)),
{
    let schm = match Schemes::create_entity(scheme, username) {
        Ok(schm) => schm,
        Err(e) => { return Err(e); },
    };
    match schm.generate(users) {
        Ok(pubkey) => Ok(Reply::Created { scheme: scheme.to_owned(), pubkey }),
        Err(e) => Err(e),
    }
}

/// Serves one event of the conversation with `username`, which stands in
/// `state`, and answers with the state it stands in afterwards and with what
/// goes back to the owner.
pub fn step(policy: MidFlow, state: State, users: &UsersData, username: &String, event: Event) -> (next:
    (State, Result<Reply, WalletError>))
    ensures
        is_step(policy, state@, users@, username@, event@, next.0@, outcome_view(next.1)),
{
    match event {
        Event::Command(command) => {
            let served = match state {
                State::Start => true,
                _ => match policy {
                    MidFlow::Reset => true,
                    MidFlow::Reject => false,
                },
            };
            if served {
                let (next, reply) = message_handler(users, username, command);
                (next, Ok(reply))
            } else {
                let again = match state {
                    State::Start => Reply::Nothing,
                    State::ReceiveTo => Reply::ToWhom,
                    State::ReceiveAmount { .. } => Reply::Amount,
                };
                (state, Ok(again))
            }
        },
        Event::Text(text) => match state {
            State::Start => (State::Start, Ok(Reply::Nothing)),
            State::ReceiveTo => {
                let (next, reply) = receive_to(Some(text));
                (next, Ok(reply))
            },
            State::ReceiveAmount { to } => signing(users, username, Some(text), to),
        },
        Event::Other => match state {
            State::Start => (State::Start, Ok(Reply::Nothing)),
            State::ReceiveTo => {
                let (next, reply) = receive_to(None);
                (next, Ok(reply))
            },
            State::ReceiveAmount { to } => signing(users, username, None, to),
        },
    }
}

} // verus!
