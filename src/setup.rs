//! First-run and login decisions: creating or recovering an account, and
//! bringing every network's state up from one recovery phrase.

use vstd::prelude::*;
use crate::network::{Network, NetworkSpecific};
use crate::secret::{os_random, Password};

verus! {

/// Whether `phrase` is a valid English BIP-39 recovery phrase (word list,
/// word count and checksum).
pub uninterp spec fn valid_phrase(phrase: Seq<char>) -> bool;

/// Relies on `bip0039::Mnemonic::validate`: success exactly for a valid
/// English BIP-39 phrase.
#[verifier::external_body]
fn phrase_is_valid(phrase: &str) -> (r: bool)
    ensures
        r == valid_phrase(phrase@),
{
    bip0039::Mnemonic::validate(phrase).is_ok()
}

/// Length in bytes of the entropy behind a twelve-word phrase.
pub const ENTROPY_LEN: usize = 16;

/// Relies on `bip0039::Mnemonic::from_entropy`: it succeeds on 16 bytes of
/// entropy (among other lengths), and builds the English words and checksum
/// itself, so the phrase it returns is valid.
#[verifier::external_body]
fn phrase_from_entropy(entropy: &[u8]) -> (r: Option<String>)
    ensures
        entropy@.len() == ENTROPY_LEN ==> r is Some,
        r is Some ==> valid_phrase(r->0@),
{
    match bip0039::Mnemonic::from_entropy(entropy) {
        Ok(m) => Some(m.into_phrase()),
        Err(_) => None,
    }
}

/// A BIP-39 recovery phrase, the one durable secret of an account.
#[derive(Debug)]
pub struct Mnemonic {
    phrase: String,
}

impl View for Mnemonic {
    type V = Seq<char>;

    closed spec fn view(&self) -> Seq<char> {
        self.phrase@
    }
}

impl Mnemonic {
    /// The mnemonic for `phrase`, or `None` if it is not a valid phrase.
    pub fn new(phrase: String) -> (r: Option<Self>)
        ensures
            r is Some <==> valid_phrase(phrase@),
            r is Some ==> r->0@ == phrase@,
    {
        if phrase_is_valid(phrase.as_str()) {
            Some(Mnemonic { phrase })
        } else {
            None
        }
    }

    /// A freshly sampled twelve-word mnemonic, offered when a new account is
    /// created; `None` only when the operating system's generator fails.
    pub fn sample() -> (r: Option<Self>)
        ensures
            r is Some ==> valid_phrase(r->0@),
    {
        let entropy = match os_random(ENTROPY_LEN) {
            Some(e) => e,
            None => return None,
        };
        match phrase_from_entropy(entropy.as_slice()) {
            Some(phrase) => Some(Mnemonic { phrase }),
            None => None,
        }
    }

    /// The phrase.
    pub fn phrase(&self) -> (r: &str)
        ensures
            r@ == self@,
    {
        self.phrase.as_str()
    }

    /// A copy of `self`.
    pub fn duplicate(&self) -> (r: Self)
        ensures
            r@ == self@,
    {
        Mnemonic { phrase: self.phrase.clone() }
    }
}

/// The user's choice on the first screen.
#[derive(Clone, Copy, Debug, PartialEq, Eq, Structural)]
pub enum UserSelection {
    /// Create a new account with the offered phrase
    Create,
    /// Sign in to the existing account
    SignIn,
    /// Recover an account from a phrase the user types
    Recover,
}

impl UserSelection {
    /// Reads the label sent by the user interface: `"Create"`, `"Recover"`,
    /// and anything else as signing in.
    pub fn from_label(label: &String) -> (r: Self)
        ensures
            label@ == "Create"@ ==> r == UserSelection::Create,
            label@ == "Recover"@ ==> r == UserSelection::Recover,
            label@ != "Create"@ && label@ != "Recover"@ ==> r == UserSelection::SignIn,
    {
        proof {
            reveal_strlit("Create");
            reveal_strlit("Recover");
            assert("Create"@.len() != "Recover"@.len());
        }
        if *label == "Create".to_owned() {
            UserSelection::Create
        } else if *label == "Recover".to_owned() {
            UserSelection::Recover
        } else {
            UserSelection::SignIn
        }
    }
}

/// The outcome of the setup phase.
#[derive(Debug)]
pub enum Setup {
    /// Create an account from the phrase
    CreateAccount(Mnemonic),
    /// Log in to the existing account
    Login,
}

impl Setup {
    /// What the server offers before the user chooses: logging in when some
    /// state file exists, else creating an account with `sampled`.
    pub fn offer(data_exists: bool, sampled: Mnemonic) -> (r: Self)
        ensures
            data_exists ==> r is Login,
            !data_exists ==> r is CreateAccount && r->CreateAccount_0@ == sampled@,
    {
        if data_exists {
            Setup::Login
        } else {
            Setup::CreateAccount(sampled)
        }
    }

    /// Settles the offer with the user's `selection`. Recovering needs the
    /// user's phrase: without it the result is `None` and the caller waits for it.
    pub fn select(self, selection: UserSelection, recovered: Option<Mnemonic>) -> (r: Option<Self>)
        ensures
            selection == UserSelection::Create ==> r is Some && match (self, r->0) {
                (Setup::Login, Setup::Login) => true,
                (Setup::CreateAccount(m), Setup::CreateAccount(n)) => m@ == n@,
                _ => false,
            },
            selection == UserSelection::SignIn ==> r is Some && r->0 is Login,
            selection == UserSelection::Recover ==> (r is Some <==> recovered is Some),
            selection == UserSelection::Recover && recovered is Some ==>
                r->0 is CreateAccount && r->0->CreateAccount_0@ == recovered->0@,
    {
        match selection {
            UserSelection::Create => Some(self),
            UserSelection::SignIn => Some(Setup::Login),
            UserSelection::Recover => match recovered {
                Some(m) => Some(Setup::CreateAccount(m)),
                None => None,
            },
        }
    }
}

/// What the startup loop does with one password attempt.
#[derive(Debug)]
pub enum StartupAction {
    /// No password was given: wait, then ask again
    Retry,
    /// Build every network's state from the phrase and save it under the password
    CreateAll(Mnemonic),
    /// Try to open the existing state files under the password
    LoadAll,
}

/// Decides what a password attempt during startup leads to.
pub fn startup_action(setup: &Setup, password: &Password) -> (r: StartupAction)
    ensures
        password.view() is None ==> r is Retry,
        password.view() is Some && setup is Login ==> r is LoadAll,
        password.view() is Some && setup is CreateAccount ==>
            r is CreateAll && r->CreateAll_0@ == setup->CreateAccount_0@,
{
    if !password.is_known() {
        return StartupAction::Retry;
    }
    match setup {
        Setup::Login => StartupAction::LoadAll,
        Setup::CreateAccount(m) => StartupAction::CreateAll(m.duplicate()),
    }
}

/// The phrase each network's fresh state is seeded from when an account is created.
pub fn create_plan(mnemonic: &Mnemonic) -> (r: NetworkSpecific<Mnemonic>)
    ensures
        forall|n: Network| (#[trigger] r.at(n))@ == mnemonic@,
{
    NetworkSpecific::new(mnemonic.duplicate(), mnemonic.duplicate(), mnemonic.duplicate())
}

/// The result of opening one network's state file.
#[derive(Debug)]
pub enum LoadOutcome {
    /// There is no file
    Missing,
    /// The file opened; its state is seeded from the phrase
    Loaded(Mnemonic),
    /// The password did not open the file
    BadPassword,
    /// The file opened but its content is not a state
    Corrupt,
}

/// How far opening a state file got.
#[derive(Debug)]
pub enum OpenStage {
    /// There is no file
    Absent,
    /// The container did not authenticate under the key
    AuthenticationFailed,
    /// The container opened but did not decode, or is not a container
    Malformed,
    /// The state decoded; it carries this phrase
    Decoded(String),
}

impl LoadOutcome {
    /// Classifies how opening a file went: missing, bad password, corrupt (a
    /// malformed file, or a state whose phrase is not valid), or loaded.
    pub fn classify(stage: OpenStage) -> (r: Self)
        ensures
            stage is Absent ==> r is Missing,
            stage is AuthenticationFailed ==> r is BadPassword,
            stage is Malformed ==> r is Corrupt,
            stage is Decoded ==> (r is Loaded <==> valid_phrase(stage->Decoded_0@)),
            stage is Decoded && !valid_phrase(stage->Decoded_0@) ==> r is Corrupt,
            r is Loaded ==> r->Loaded_0@ == stage->Decoded_0@,
    {
        match stage {
            OpenStage::Absent => LoadOutcome::Missing,
            OpenStage::AuthenticationFailed => LoadOutcome::BadPassword,
            OpenStage::Malformed => LoadOutcome::Corrupt,
            OpenStage::Decoded(phrase) => match Mnemonic::new(phrase) {
                Some(m) => LoadOutcome::Loaded(m),
                None => LoadOutcome::Corrupt,
            },
        }
    }
}

/// What the login loop does once every existing file has been tried.
#[derive(Debug)]
pub enum LoginDecision {
    /// No file opened: wait, then ask again
    Retry,
    /// Log in; build and save a state from `mnemonic` for every network marked
    /// in `synthesize`, which are those without a usable state
    Proceed {
        /// The account's phrase, read from the first network whose file opened
        mnemonic: Mnemonic,
        /// The networks whose file was missing or did not open
        synthesize: NetworkSpecific<bool>,
    },
}

/// The first network, in the fixed order, whose file opened.
pub open spec fn first_loaded(outcomes: NetworkSpecific<LoadOutcome>) -> Option<Network> {
    if outcomes.dolphin is Loaded {
        Some(Network::Dolphin)
    } else if outcomes.calamari is Loaded {
        Some(Network::Calamari)
    } else if outcomes.manta is Loaded {
        Some(Network::Manta)
    } else {
        None
    }
}

/// The login the outcomes lead to: `None` to ask again, when no file opened;
/// else the phrase of the first network whose file opened, and the networks
/// without a usable state, which are rebuilt from it.
pub open spec fn login_outcome(outcomes: NetworkSpecific<LoadOutcome>) -> Option<(Seq<char>, NetworkSpecific<bool>)> {
    match first_loaded(outcomes) {
        None => None,
        Some(src) => Some((
            outcomes.at(src)->Loaded_0@,
            NetworkSpecific {
                dolphin: !(outcomes.dolphin is Loaded),
                calamari: !(outcomes.calamari is Loaded),
                manta: !(outcomes.manta is Loaded),
            },
        )),
    }
}

/// Decides the login from the outcome of opening each network's file: it
/// proceeds exactly when some file opened; the phrase comes from the first
/// that opened, and every network without a usable state is rebuilt from it.
pub fn login_decision(outcomes: &NetworkSpecific<LoadOutcome>) -> (r: LoginDecision)
    ensures
        match (r, login_outcome(*outcomes)) {
            (LoginDecision::Retry, None) => true,
            (LoginDecision::Proceed { mnemonic, synthesize }, Some((m, s))) => mnemonic@ == m && synthesize == s,
            _ => false,
        },
{
    let mnemonic = match (&outcomes.dolphin, &outcomes.calamari, &outcomes.manta) {
        (LoadOutcome::Loaded(m), _, _) => m.duplicate(),
        (_, LoadOutcome::Loaded(m), _) => m.duplicate(),
        (_, _, LoadOutcome::Loaded(m)) => m.duplicate(),
        _ => return LoginDecision::Retry,
    };
    let synthesize = NetworkSpecific::new(
        !matches!(outcomes.dolphin, LoadOutcome::Loaded(_)),
        !matches!(outcomes.calamari, LoadOutcome::Loaded(_)),
        !matches!(outcomes.manta, LoadOutcome::Loaded(_)),
    );
    LoginDecision::Proceed { mnemonic, synthesize }
}

/// A freshly created account reads back its own phrase on every network:
/// when each network's file opens to the state `create_plan` seeded it with,
/// the login proceeds with the account's phrase and rebuilds nothing.
pub proof fn lemma_created_account_logs_in(
    mnemonic: Mnemonic,
    plan: NetworkSpecific<Mnemonic>,
    outcomes: NetworkSpecific<LoadOutcome>,
)
    requires
        forall|n: Network| (#[trigger] plan.at(n))@ == mnemonic@,
        forall|n: Network| #[trigger] outcomes.at(n) is Loaded
            && outcomes.at(n)->Loaded_0@ == plan.at(n)@,
    ensures
        login_outcome(outcomes) == Some((mnemonic@, NetworkSpecific { dolphin: false, calamari: false, manta: false })),
{
    assert(outcomes.at(Network::Dolphin) is Loaded);
    assert(outcomes.at(Network::Calamari) is Loaded);
    assert(outcomes.at(Network::Manta) is Loaded);
    assert(plan.at(Network::Dolphin)@ == mnemonic@);
}

/// How the shell brings the signer back after an account reset.
#[derive(Clone, Copy, Debug, PartialEq, Eq, Structural)]
pub enum ResetAction {
    /// Restart the whole process
    RestartProcess,
    /// Build a new server with fresh channels inside the running process
    RebuildServer,
}

/// Restarts the process when asked to and the shell can; rebuilds the server otherwise.
pub fn reset_action(can_app_restart: bool, restart: bool) -> (r: ResetAction)
    ensures
        r == (if can_app_restart && restart { ResetAction::RestartProcess } else { ResetAction::RebuildServer }),
{
    if can_app_restart && restart {
        ResetAction::RestartProcess
    } else {
        ResetAction::RebuildServer
    }
}

} // verus!
