use ed25519_dalek::Verifier;
use teloxide::utils::command::{CommandDescription, CommandDescriptions};
use tg_bot::dialogue::{
    callback_handler, create_wallet_message, get_address_message, help_message, make_keyboard,
    message_handler, receive_to, signing, signtx_message, step,
};
use tg_bot::dialogue::{Command, Event, MidFlow, Reply, State};
use tg_bot::dialogues::Dialogues;
use tg_bot::error::WalletError;
use tg_bot::transaction::SignedTransaction;
use tg_bot::users::{UserInfo, UsersData};

fn wallet(owner: &str, scheme: &str) -> (UsersData, String) {
    let mut users = UsersData::new();
    let reply = callback_handler(&mut users, scheme, owner.to_string()).unwrap();
    let pubkey = match reply {
        Reply::Created { pubkey, .. } => pubkey,
        other => panic!("{other:?}"),
    };
    (users, pubkey)
}

fn signed(outcome: Result<Reply, WalletError>) -> SignedTransaction {
    match outcome {
        Ok(Reply::Signed(signed)) => signed,
        other => panic!("{other:?}"),
    }
}

fn awaiting(to: &str) -> State {
    State::ReceiveAmount { to: to.to_string() }
}

#[test]
fn a_conversation_begins_at_the_start() {
    assert_eq!(State::default(), State::Start);
    let dialogues = Dialogues::new(MidFlow::Reject);
    assert_eq!(dialogues.state("alice"), State::Start);
    assert_eq!(dialogues.state(""), State::Start);
}

#[test]
fn sign_tx_then_bob_then_42() {
    let (users, pubkey) = wallet("alice", "Ed25519");
    let alice = "alice".to_string();
    let (state, reply) =
        step(MidFlow::Reject, State::Start, &users, &alice, Event::Command(Command::SignTx));
    assert_eq!(state, State::ReceiveTo);
    assert_eq!(reply, Ok(Reply::ToWhom));
    let (state, reply) = step(MidFlow::Reject, state, &users, &alice, Event::Text("bob".to_string()));
    assert_eq!(state, awaiting("bob"));
    assert_eq!(reply, Ok(Reply::Amount));
    let (state, reply) = step(MidFlow::Reject, state, &users, &alice, Event::Text("42".to_string()));
    assert_eq!(state, State::Start);
    let tx = signed(reply);
    assert_eq!(tx.from, "alice");
    assert_eq!(tx.to, "bob");
    assert_eq!(tx.amount, 42);
    let public =
        ed25519_dalek::PublicKey::from_bytes(&hex::decode(&pubkey).unwrap()).unwrap();
    let signature =
        ed25519_dalek::Signature::from_bytes(&hex::decode(&tx.sign).unwrap()).unwrap();
    let text = "{\"amount\":42,\"from\":\"alice\",\"to\":\"bob\"}";
    assert!(public.verify(text.as_bytes(), &signature).is_ok());
    assert_eq!(
        Reply::Signed(tx.clone()).text(),
        format!("{{\"amount\":42,\"from\":\"alice\",\"sign\":\"{}\",\"to\":\"bob\"}}", tx.sign)
    );
}

#[test]
fn sign_tx_under_sr25519() {
    let (users, pubkey) = wallet("bob", "Sr25519");
    let bob = "bob".to_string();
    let (state, reply) = signing(&users, &bob, Some("7".to_string()), "alice".to_string());
    assert_eq!(state, State::Start);
    let tx = signed(reply);
    assert_eq!((tx.from.as_str(), tx.to.as_str(), tx.amount), ("bob", "alice", 7));
    let public = schnorrkel::PublicKey::from_bytes(&hex::decode(&pubkey).unwrap()).unwrap();
    let signature = schnorrkel::Signature::from_bytes(&hex::decode(&tx.sign).unwrap()).unwrap();
    let text = "{\"amount\":7,\"from\":\"bob\",\"to\":\"alice\"}";
    assert!(public.verify_simple(b"Signing", text.as_bytes(), &signature).is_ok());
}

#[test]
fn invalid_amount_keeps_the_state() {
    let (users, _) = wallet("alice", "Ed25519");
    let alice = "alice".to_string();
    for text in ["not-a-number", "-5", "", "4.2", " 42", "4294967296"] {
        let (state, reply) = step(
            MidFlow::Reject,
            awaiting("bob"),
            &users,
            &alice,
            Event::Text(text.to_string()),
        );
        assert_eq!(state, awaiting("bob"), "{text:?}");
        assert_eq!(reply, Ok(Reply::SendNumber), "{text:?}");
        assert_eq!(Reply::SendNumber.text(), "Send me a number.");
    }
    let (state, reply) = step(MidFlow::Reject, awaiting("bob"), &users, &alice, Event::Other);
    assert_eq!(state, awaiting("bob"));
    assert_eq!(reply, Ok(Reply::SendNumber));
    let (state, reply) = signing(&users, &alice, None, "bob".to_string());
    assert_eq!(state, awaiting("bob"));
    assert_eq!(reply, Ok(Reply::SendNumber));
}

#[test]
fn an_amount_after_an_invalid_one_is_taken() {
    let (users, _) = wallet("alice", "Ed25519");
    let alice = "alice".to_string();
    let (state, _) = signing(&users, &alice, Some("-5".to_string()), "bob".to_string());
    let to = match state {
        State::ReceiveAmount { to } => to,
        other => panic!("{other:?}"),
    };
    let (state, reply) = signing(&users, &alice, Some("5".to_string()), to);
    assert_eq!(state, State::Start);
    assert_eq!(signed(reply).amount, 5);
}

#[test]
fn signing_without_a_wallet_fails_and_keeps_the_state() {
    let users = UsersData::new();
    let (state, reply) =
        signing(&users, &"alice".to_string(), Some("42".to_string()), "bob".to_string());
    assert_eq!(state, awaiting("bob"));
    assert_eq!(reply, Err(WalletError::NotFound));
}

#[test]
fn signing_with_a_record_of_an_unknown_scheme_fails() {
    let mut users = UsersData::new();
    users.put(UserInfo {
        username: "alice".to_string(),
        sig_scheme: "Sd25519".to_string(),
        keypair: "00".to_string(),
        pubkey: "00".to_string(),
    });
    let (state, reply) =
        signing(&users, &"alice".to_string(), Some("42".to_string()), "bob".to_string());
    assert_eq!(state, awaiting("bob"));
    assert_eq!(reply, Err(WalletError::UnknownScheme));
}

#[test]
fn signing_with_a_malformed_key_fails() {
    let mut users = UsersData::new();
    users.put(UserInfo {
        username: "alice".to_string(),
        sig_scheme: "Ed25519".to_string(),
        keypair: "zz".to_string(),
        pubkey: "00".to_string(),
    });
    let (state, reply) =
        signing(&users, &"alice".to_string(), Some("42".to_string()), "bob".to_string());
    assert_eq!(state, awaiting("bob"));
    assert_eq!(reply, Err(WalletError::KeyDecodeError));
}

#[test]
fn recipient_is_any_text_that_is_not_empty() {
    assert_eq!(receive_to(Some("bob".to_string())), (awaiting("bob"), Reply::Amount));
    assert_eq!(receive_to(Some(" ".to_string())), (awaiting(" "), Reply::Amount));
    assert_eq!(receive_to(Some("42".to_string())), (awaiting("42"), Reply::Amount));
    assert_eq!(receive_to(Some("".to_string())), (State::ReceiveTo, Reply::SendPlainText));
    assert_eq!(receive_to(None), (State::ReceiveTo, Reply::SendPlainText));
    let users = UsersData::new();
    let (state, reply) =
        step(MidFlow::Reset, State::ReceiveTo, &users, &"alice".to_string(), Event::Other);
    assert_eq!(state, State::ReceiveTo);
    assert_eq!(reply, Ok(Reply::SendPlainText));
}

#[test]
fn commands_at_the_start() {
    let (users, pubkey) = wallet("alice", "Sr25519");
    let alice = "alice".to_string();
    let bob = "bob".to_string();
    assert_eq!(message_handler(&users, &alice, Command::Help), (State::Start, Reply::Help));
    assert_eq!(
        message_handler(&users, &alice, Command::CreateWallet),
        (State::Start, Reply::AlreadyHaveKeys { pubkey: pubkey.clone() })
    );
    assert_eq!(
        message_handler(&users, &bob, Command::CreateWallet),
        (State::Start, Reply::ChooseScheme)
    );
    assert_eq!(
        message_handler(&users, &alice, Command::GetMyAddress),
        (State::Start, Reply::Address { pubkey: pubkey.clone() })
    );
    assert_eq!(
        message_handler(&users, &bob, Command::GetMyAddress),
        (State::Start, Reply::CreateWalletFirst)
    );
    assert_eq!(
        message_handler(&users, &bob, Command::SignTx),
        (State::ReceiveTo, Reply::ToWhom)
    );
    assert_eq!(help_message(), Reply::Help);
    assert_eq!(signtx_message(), Reply::ToWhom);
    assert_eq!(create_wallet_message(&users, &bob), Reply::ChooseScheme);
    assert_eq!(get_address_message(&users, &alice), Reply::Address { pubkey });
}

#[test]
fn text_at_the_start_is_not_answered() {
    let users = UsersData::new();
    let alice = "alice".to_string();
    let (state, reply) =
        step(MidFlow::Reject, State::Start, &users, &alice, Event::Text("hello".to_string()));
    assert_eq!(state, State::Start);
    assert_eq!(reply, Ok(Reply::Nothing));
    let (state, reply) = step(MidFlow::Reset, State::Start, &users, &alice, Event::Other);
    assert_eq!(state, State::Start);
    assert_eq!(reply, Ok(Reply::Nothing));
}

#[test]
fn a_command_in_the_middle_is_turned_down_under_reject() {
    let users = UsersData::new();
    let alice = "alice".to_string();
    for command in [Command::Help, Command::CreateWallet, Command::GetMyAddress, Command::SignTx] {
        let (state, reply) =
            step(MidFlow::Reject, State::ReceiveTo, &users, &alice, Event::Command(command));
        assert_eq!(state, State::ReceiveTo);
        assert_eq!(reply, Ok(Reply::ToWhom));
        let (state, reply) =
            step(MidFlow::Reject, awaiting("bob"), &users, &alice, Event::Command(command));
        assert_eq!(state, awaiting("bob"));
        assert_eq!(reply, Ok(Reply::Amount));
    }
}

#[test]
fn a_command_in_the_middle_starts_over_under_reset() {
    let users = UsersData::new();
    let alice = "alice".to_string();
    let (state, reply) = step(
        MidFlow::Reset,
        awaiting("bob"),
        &users,
        &alice,
        Event::Command(Command::GetMyAddress),
    );
    assert_eq!(state, State::Start);
    assert_eq!(reply, Ok(Reply::CreateWalletFirst));
    let (state, reply) =
        step(MidFlow::Reset, awaiting("bob"), &users, &alice, Event::Command(Command::SignTx));
    assert_eq!(state, State::ReceiveTo);
    assert_eq!(reply, Ok(Reply::ToWhom));
    let (state, reply) =
        step(MidFlow::Reset, State::ReceiveTo, &users, &alice, Event::Command(Command::Help));
    assert_eq!(state, State::Start);
    assert_eq!(reply, Ok(Reply::Help));
}

#[test]
fn choosing_a_scheme_makes_the_wallet() {
    let mut users = UsersData::new();
    let reply = callback_handler(&mut users, "Ed25519", "alice".to_string()).unwrap();
    let record = users.find("alice").unwrap();
    assert_eq!(record.sig_scheme, "Ed25519");
    assert_eq!(
        reply,
        Reply::Created { scheme: "Ed25519".to_string(), pubkey: record.pubkey.clone() }
    );
    assert_eq!(
        reply.text(),
        format!("You chose: Ed25519\n Your pub key: {}", record.pubkey)
    );
    assert_eq!(
        callback_handler(&mut users, "Sr25519", "alice".to_string()),
        Err(WalletError::AlreadyExists)
    );
    assert_eq!(
        callback_handler(&mut users, "Ed25519", "alice".to_string()),
        Err(WalletError::AlreadyExists)
    );
    assert_eq!(users.find("alice").unwrap(), record);
}

#[test]
fn choosing_an_unknown_scheme_makes_nothing() {
    let mut users = UsersData::new();
    for tag in ["", "Rsa", "ed25519", "Sd25519"] {
        assert_eq!(
            callback_handler(&mut users, tag, "alice".to_string()),
            Err(WalletError::UnknownScheme)
        );
        assert_eq!(users.get("alice"), None);
    }
    callback_handler(&mut users, "Sr25519", "alice".to_string()).unwrap();
    assert_eq!(
        callback_handler(&mut users, "Rsa", "alice".to_string()),
        Err(WalletError::UnknownScheme)
    );
}

#[test]
fn keyboard_has_a_row_for_each_scheme() {
    assert_eq!(make_keyboard(), vec![vec!["Ed25519".to_string()], vec!["Sr25519".to_string()]]);
    assert_eq!(Reply::ChooseScheme.keyboard(), make_keyboard());
    assert_eq!(Reply::Help.keyboard(), Vec::<Vec<String>>::new());
    assert_eq!(Reply::ToWhom.keyboard(), Vec::<Vec<String>>::new());
    for row in make_keyboard() {
        for label in row {
            let mut users = UsersData::new();
            assert!(callback_handler(&mut users, &label, "alice".to_string()).is_ok());
        }
    }
}

#[test]
fn texts_of_the_replies() {
    assert_eq!(Reply::Nothing.text(), "");
    assert_eq!(
        Reply::Help.text(),
        "These commands are supported:\n\n/help \u{2014} display this text.\n/createwallet \u{2014} create wallet.\n/getmyaddress \u{2014} get address.\n/signtx \u{2014} sign tx."
    );
    assert_eq!(
        Reply::AlreadyHaveKeys { pubkey: "ab".to_string() }.text(),
        "Already have keys. Your pub key:\n ab"
    );
    assert_eq!(Reply::ChooseScheme.text(), "Signature schemes:");
    assert_eq!(Reply::Address { pubkey: "ab".to_string() }.text(), "address: ab");
    assert_eq!(
        Reply::CreateWalletFirst.text(),
        "First, please create a wallet with the command: /createwallet"
    );
    assert_eq!(Reply::ToWhom.text(), "To whom");
    assert_eq!(Reply::Amount.text(), "Amount?");
    assert_eq!(Reply::SendPlainText.text(), "Send me plain text.");
    assert_eq!(Reply::SendNumber.text(), "Send me a number.");
    assert_eq!(
        Reply::Created { scheme: "Sr25519".to_string(), pubkey: "ab".to_string() }.text(),
        "You chose: Sr25519\n Your pub key: ab"
    );
    assert_eq!(
        Reply::Signed(SignedTransaction {
            from: "alice".to_string(),
            to: "bob".to_string(),
            amount: 42,
            sign: "0a".to_string(),
        })
        .text(),
        "{\"amount\":42,\"from\":\"alice\",\"sign\":\"0a\",\"to\":\"bob\"}"
    );
}

#[test]
fn conversations_of_two_owners_do_not_meet() {
    let (users, _) = wallet("alice", "Ed25519");
    let alice = "alice".to_string();
    let bob = "bob".to_string();
    let mut dialogues = Dialogues::new(MidFlow::Reject);
    assert_eq!(dialogues.handle(&users, &alice, Event::Command(Command::SignTx)), Ok(Reply::ToWhom));
    assert_eq!(dialogues.state("alice"), State::ReceiveTo);
    assert_eq!(dialogues.state("bob"), State::Start);
    assert_eq!(dialogues.handle(&users, &bob, Event::Command(Command::SignTx)), Ok(Reply::ToWhom));
    assert_eq!(dialogues.handle(&users, &bob, Event::Text("carol".to_string())), Ok(Reply::Amount));
    assert_eq!(dialogues.state("alice"), State::ReceiveTo);
    assert_eq!(dialogues.state("bob"), awaiting("carol"));
    assert_eq!(
        dialogues.handle(&users, &bob, Event::Text("not-a-number".to_string())),
        Ok(Reply::SendNumber)
    );
    assert_eq!(dialogues.handle(&users, &bob, Event::Other), Ok(Reply::SendNumber));
    assert_eq!(dialogues.state("alice"), State::ReceiveTo);
    assert_eq!(dialogues.handle(&users, &alice, Event::Text("dave".to_string())), Ok(Reply::Amount));
    assert_eq!(dialogues.state("alice"), awaiting("dave"));
    assert_eq!(dialogues.state("bob"), awaiting("carol"));
    let tx = signed(dialogues.handle(&users, &alice, Event::Text("9".to_string())));
    assert_eq!((tx.from.as_str(), tx.to.as_str(), tx.amount), ("alice", "dave", 9));
    assert_eq!(dialogues.state("alice"), State::Start);
    assert_eq!(dialogues.state("bob"), awaiting("carol"));
    assert_eq!(
        dialogues.handle(&users, &bob, Event::Text("9".to_string())),
        Err(WalletError::NotFound)
    );
    assert_eq!(dialogues.state("bob"), awaiting("carol"));
}

#[test]
fn reset_puts_one_owner_back_to_the_start() {
    let users = UsersData::new();
    let alice = "alice".to_string();
    let bob = "bob".to_string();
    let mut dialogues = Dialogues::new(MidFlow::Reset);
    dialogues.handle(&users, &alice, Event::Command(Command::SignTx)).unwrap();
    dialogues.handle(&users, &alice, Event::Text("bob".to_string())).unwrap();
    dialogues.handle(&users, &bob, Event::Command(Command::SignTx)).unwrap();
    dialogues.reset("alice");
    assert_eq!(dialogues.state("alice"), State::Start);
    assert_eq!(dialogues.state("bob"), State::ReceiveTo);
    dialogues.reset("alice");
    dialogues.reset("nobody");
    assert_eq!(dialogues.state("alice"), State::Start);
    assert_eq!(dialogues.state("bob"), State::ReceiveTo);
    assert_eq!(
        dialogues.handle(&users, &alice, Event::Text("42".to_string())),
        Ok(Reply::Nothing)
    );
}

#[test]
fn the_policy_of_a_conversation_map_is_the_one_it_was_made_with() {
    let users = UsersData::new();
    let alice = "alice".to_string();
    let mut reject = Dialogues::new(MidFlow::Reject);
    reject.handle(&users, &alice, Event::Command(Command::SignTx)).unwrap();
    assert_eq!(reject.handle(&users, &alice, Event::Command(Command::Help)), Ok(Reply::ToWhom));
    assert_eq!(reject.state("alice"), State::ReceiveTo);
    let mut reset = Dialogues::new(MidFlow::Reset);
    reset.handle(&users, &alice, Event::Command(Command::SignTx)).unwrap();
    assert_eq!(reset.handle(&users, &alice, Event::Command(Command::Help)), Ok(Reply::Help));
    assert_eq!(reset.state("alice"), State::Start);
}

#[test]
fn a_state_can_be_copied() {
    assert_eq!(awaiting("bob").clone(), awaiting("bob"));
    assert_eq!(State::ReceiveTo.clone(), State::ReceiveTo);
    assert_eq!(State::Start.clone(), State::Start);
}

#[test]
fn help_text_is_the_list_that_the_transport_prints() {
    let commands = [
        CommandDescription { prefix: "/", command: "help", description: "display this text." },
        CommandDescription { prefix: "/", command: "createwallet", description: "create wallet." },
        CommandDescription { prefix: "/", command: "getmyaddress", description: "get address." },
        CommandDescription { prefix: "/", command: "signtx", description: "sign tx." },
    ];
    let printed = CommandDescriptions::new(&commands)
        .global_description("These commands are supported:")
        .to_string();
    assert_eq!(Reply::Help.text(), printed);
}
