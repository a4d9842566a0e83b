use manta_signer::prompt::PasswordPrompt;
use manta_signer::setup::{
    create_plan, login_decision, reset_action, startup_action, LoadOutcome, LoginDecision, OpenStage,
    ResetAction, StartupAction,
};
use manta_signer::{Mnemonic, Network, NetworkSpecific, Password, Setup, UserSelection};

const PHRASE: &str = "bottom drive obey lake curtain smoke basket hold race lonely fit walk";

fn mnemonic() -> Mnemonic {
    Mnemonic::new(PHRASE.to_string()).unwrap()
}

#[test]
fn valid_phrase_is_accepted() {
    assert_eq!(mnemonic().phrase(), PHRASE);
}

#[test]
fn invalid_phrase_is_rejected() {
    let bad = "bottom drive obey lake curtain smoke basket hold race lonely fit fit";
    assert!(Mnemonic::new(bad.to_string()).is_none());
    assert!(Mnemonic::new("not a phrase".to_string()).is_none());
}

#[test]
fn sampled_phrase_has_twelve_valid_words() {
    let m = Mnemonic::sample().unwrap();
    assert_eq!(m.phrase().split_whitespace().count(), 12);
    assert!(Mnemonic::new(m.phrase().to_string()).is_some());
}

#[test]
fn selection_labels() {
    assert_eq!(UserSelection::from_label(&"Create".to_string()), UserSelection::Create);
    assert_eq!(UserSelection::from_label(&"Recover".to_string()), UserSelection::Recover);
    assert_eq!(UserSelection::from_label(&"SignIn".to_string()), UserSelection::SignIn);
    assert_eq!(UserSelection::from_label(&"anything".to_string()), UserSelection::SignIn);
}

#[test]
fn sampled_phrases_differ() {
    let a = Mnemonic::sample().unwrap();
    let b = Mnemonic::sample().unwrap();
    assert_ne!(a.phrase(), b.phrase());
}

#[test]
fn offer_depends_on_existing_data() {
    assert!(matches!(Setup::offer(true, mnemonic()), Setup::Login));
    match Setup::offer(false, mnemonic()) {
        Setup::CreateAccount(m) => assert_eq!(m.phrase(), PHRASE),
        Setup::Login => panic!("expected account creation"),
    }
}

#[test]
fn selection_settles_offer() {
    let s = Setup::offer(false, mnemonic()).select(UserSelection::SignIn, None).unwrap();
    assert!(matches!(s, Setup::Login));
    let s = Setup::offer(true, mnemonic()).select(UserSelection::Create, None).unwrap();
    assert!(matches!(s, Setup::Login));
    assert!(Setup::Login.select(UserSelection::Recover, None).is_none());
    match Setup::Login.select(UserSelection::Recover, Some(mnemonic())).unwrap() {
        Setup::CreateAccount(m) => assert_eq!(m.phrase(), PHRASE),
        Setup::Login => panic!("expected account creation"),
    }
}

#[test]
fn startup_attempts() {
    assert!(matches!(startup_action(&Setup::Login, &Password::from_unknown()), StartupAction::Retry));
    assert!(matches!(
        startup_action(&Setup::Login, &Password::from_known(b"pw".to_vec())),
        StartupAction::LoadAll
    ));
    match startup_action(&Setup::CreateAccount(mnemonic()), &Password::from_known(b"pw".to_vec())) {
        StartupAction::CreateAll(m) => assert_eq!(m.phrase(), PHRASE),
        _ => panic!("expected account creation"),
    }
}

#[test]
fn created_states_share_the_phrase() {
    let plan = create_plan(&mnemonic());
    for n in Network::all() {
        assert_eq!(plan.get(n).phrase(), PHRASE);
    }
}

#[test]
fn login_with_all_files() {
    let o = NetworkSpecific::new(
        LoadOutcome::Loaded(mnemonic()),
        LoadOutcome::Loaded(mnemonic()),
        LoadOutcome::Loaded(mnemonic()),
    );
    match login_decision(&o) {
        LoginDecision::Proceed { mnemonic, synthesize } => {
            assert_eq!(mnemonic.phrase(), PHRASE);
            assert_eq!(synthesize, NetworkSpecific::new(false, false, false));
        }
        LoginDecision::Retry => panic!("expected login"),
    }
}

#[test]
fn login_rebuilds_missing_networks() {
    let o = NetworkSpecific::new(LoadOutcome::Missing, LoadOutcome::Loaded(mnemonic()), LoadOutcome::Missing);
    match login_decision(&o) {
        LoginDecision::Proceed { mnemonic, synthesize } => {
            assert_eq!(mnemonic.phrase(), PHRASE);
            assert_eq!(synthesize, NetworkSpecific::new(true, false, true));
        }
        LoginDecision::Retry => panic!("expected login"),
    }
}

#[test]
fn login_rebuilds_networks_that_failed_to_open() {
    let o = NetworkSpecific::new(LoadOutcome::Loaded(mnemonic()), LoadOutcome::BadPassword, LoadOutcome::Missing);
    match login_decision(&o) {
        LoginDecision::Proceed { mnemonic, synthesize } => {
            assert_eq!(mnemonic.phrase(), PHRASE);
            assert_eq!(synthesize, NetworkSpecific::new(false, true, true));
        }
        LoginDecision::Retry => panic!("expected login"),
    }
}

#[test]
fn login_retries_when_nothing_opens() {
    let o = NetworkSpecific::new(LoadOutcome::Corrupt, LoadOutcome::BadPassword, LoadOutcome::Missing);
    assert!(matches!(login_decision(&o), LoginDecision::Retry));
}

#[test]
fn open_stages_classify() {
    assert!(matches!(LoadOutcome::classify(OpenStage::Absent), LoadOutcome::Missing));
    assert!(matches!(LoadOutcome::classify(OpenStage::AuthenticationFailed), LoadOutcome::BadPassword));
    assert!(matches!(LoadOutcome::classify(OpenStage::Malformed), LoadOutcome::Corrupt));
    assert!(matches!(LoadOutcome::classify(OpenStage::Decoded("no".to_string())), LoadOutcome::Corrupt));
    match LoadOutcome::classify(OpenStage::Decoded(PHRASE.to_string())) {
        LoadOutcome::Loaded(m) => assert_eq!(m.phrase(), PHRASE),
        _ => panic!("expected a loaded state"),
    }
}

#[test]
fn login_retries_without_files() {
    let o = NetworkSpecific::new(LoadOutcome::Missing, LoadOutcome::Missing, LoadOutcome::Missing);
    assert!(matches!(login_decision(&o), LoginDecision::Retry));
}

#[test]
fn reset_restarts_only_when_possible() {
    assert_eq!(reset_action(true, true), ResetAction::RestartProcess);
    assert_eq!(reset_action(false, true), ResetAction::RebuildServer);
    assert_eq!(reset_action(true, false), ResetAction::RebuildServer);
}

#[test]
fn prompt_signals_retry_after_unconfirmed_attempt() {
    let mut p = PasswordPrompt::new();
    assert!(!p.request());
    p.answered(&Password::from_known(b"wrong".to_vec()));
    assert!(p.request());
    p.answered(&Password::from_known(b"right".to_vec()));
    p.validated();
    assert!(!p.request());
    p.answered(&Password::from_unknown());
    assert!(!p.request());
}
