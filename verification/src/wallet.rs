//! Opening a wallet, and keeping its background work to one of a kind.
use vstd::prelude::*;
use vstd::hash_set::StringHashSet;
use crate::failure::{Stage, failure, failure_text, law_failures_say_what_failed_and_why};
use crate::text::{is_blank, opt_view};
use crate::request::{EpicRequest, node_url, node_url_of, wallet_dir, wallet_dir_of};

verus! {

/// The wallets, by their scope, that some background work runs for.
pub struct ScopeRegistry {
    scopes: StringHashSet,
}

impl View for ScopeRegistry {
    type V = Set<Seq<char>>;

    closed spec fn view(&self) -> Set<Seq<char>> {
        self.scopes@
    }
}

impl ScopeRegistry {
    /// A registry in which nothing runs.
    pub fn new() -> (r: ScopeRegistry)
        ensures
            r@ == Set::<Seq<char>>::empty(),
    {
        ScopeRegistry { scopes: StringHashSet::new() }
    }

    /// Claims the work for a wallet. Nothing is to be started if it runs already.
    pub fn claim(&mut self, scope: &str) -> (start: bool)
        ensures
            (final(self)@, start) == claimed(old(self)@, scope@),
    {
        self.scopes.insert(scope.to_owned())
    }

    /// Gives up the work for a wallet: it has ended, or could not be started.
    pub fn release(&mut self, scope: &str)
        ensures
            final(self)@ == released(old(self)@, scope@),
    {
        let _ = self.scopes.remove(scope);
    }
}

/// The state of a registry behind a claim, and whether the work is to be started.
pub open spec fn claimed(scopes: Set<Seq<char>>, scope: Seq<char>) -> (Set<Seq<char>>, bool) {
    (scopes.insert(scope), !scopes.contains(scope))
}

/// The state of a registry behind a release.
pub open spec fn released(scopes: Set<Seq<char>>, scope: Seq<char>) -> Set<Seq<char>> {
    scopes.remove(scope)
}

/// Work that was given up can be started again, and giving it up touches no other wallet.
pub proof fn law_work_given_up_can_be_started_again(
    scopes: Set<Seq<char>>,
    scope: Seq<char>,
    other: Seq<char>,
)
    ensures
        claimed(released(scopes, scope), scope).1,
        claimed(scopes, scope).0.contains(scope),
        !released(scopes, scope).contains(scope),
        scope != other ==> (released(scopes, scope).contains(other) <==> scopes.contains(other)),
        scope != other ==> (claimed(scopes, scope).0.contains(other) <==> scopes.contains(other)),
        claimed(scopes, scope).1 <==> !scopes.contains(scope),
{
}

/// Work is started once for each wallet: a second claim starts nothing, until the first is given
/// up; and claims of one wallet do not touch another.
pub proof fn law_work_is_started_once(scopes: Set<Seq<char>>, scope: Seq<char>, other: Seq<char>)
    ensures
        !claimed(claimed(scopes, scope).0, scope).1,
        claimed(claimed(scopes, scope).0.remove(scope), scope).1,
        scope != other ==> claimed(claimed(scopes, scope).0, other).1 == claimed(scopes, other).1,
        scope != other ==> claimed(scopes.remove(scope), other).1 == claimed(scopes, other).1,
{
}

/// The chains that wallets are kept on.
#[derive(Clone, Copy, Debug, PartialEq, Eq, Structural)]
pub enum Chain {
    Mainnet,
}

/// How a wallet is set up, besides what the wallet has by default.
pub struct WalletSettings {
    pub chain: Chain,
    /// The directory that the wallet is kept in.
    pub data_file_dir: String,
    /// The node that the wallet talks to.
    pub check_node_api_http_addr: String,
    /// Where the secret for the node is; the node asks for none.
    pub node_api_secret_path: Option<String>,
}

/// `settings` are how the wallet of a request is set up.
pub open spec fn is_set_up(req: EpicRequest, settings: WalletSettings) -> bool {
    &&& settings.chain == Chain::Mainnet
    &&& settings.data_file_dir@ == wallet_dir_of(req)
    &&& settings.check_node_api_http_addr@ == node_url_of(req)
    &&& settings.node_api_secret_path is None
}

/// A wallet is kept where the request says and talks to the node that the request says, and
/// depends on nothing else in the request.
pub proof fn law_wallets_are_set_up_as_asked_for(
    req: EpicRequest,
    settings: WalletSettings,
    other: EpicRequest,
    others: WalletSettings,
)
    requires
        call_ensures(wallet_settings, (&req,), settings),
        call_ensures(wallet_settings, (&other,), others),
    ensures
        opt_view(req.data_dir) == opt_view(other.data_dir) ==> settings.data_file_dir@
            == others.data_file_dir@,
        opt_view(req.node_url) == opt_view(other.node_url) ==> settings.check_node_api_http_addr@
            == others.check_node_api_http_addr@,
        req.data_dir is Some && !is_blank(req.data_dir->0@) ==> settings.data_file_dir@
            == req.data_dir->0@,
        req.node_url is Some && !is_blank(req.node_url->0@) && req.node_url->0@.last() != '/'
            ==> settings.check_node_api_http_addr@ == req.node_url->0@,
        settings.node_api_secret_path is None,
{
}

/// How the wallet of a request is set up.
pub fn wallet_settings(req: &EpicRequest) -> (r: WalletSettings)
    ensures
        is_set_up(*req, r),
{
    WalletSettings {
        chain: Chain::Mainnet,
        data_file_dir: wallet_dir(req),
        check_node_api_http_addr: node_url(req),
        node_api_secret_path: None,
    }
}

/// The state of building a wallet, by what is to be done next.
pub enum BuildJob {
    /// The client for the node is to be made.
    NodeClient,
    /// The wallet is to be made with it.
    Wallet,
    /// The wallet's lifecycle provider is to be asked for.
    Provider,
    /// It is to be told the wallet's directory.
    Directory,
    /// The wallet is built.
    Built,
    /// A step failed, with this error text.
    Failed(String),
}

/// The stage that a step of building a wallet fails in, and the step behind it; nothing where
/// there is nothing left to be done.
pub open spec fn build_stage(job: BuildJob) -> Option<(Stage, BuildJob)> {
    match job {
        BuildJob::NodeClient => Some((Stage::NodeClient, BuildJob::Wallet)),
        BuildJob::Wallet => Some((Stage::WalletInit, BuildJob::Provider)),
        BuildJob::Provider => Some((Stage::LifecycleProvider, BuildJob::Directory)),
        BuildJob::Directory => Some((Stage::DataDirectory, BuildJob::Built)),
        BuildJob::Built => None,
        BuildJob::Failed(_) => None,
    }
}

/// One step of building a wallet: where `job` goes when what it asks for ends in `outcome`.
pub open spec fn build_step(job: BuildJob, outcome: Result<(), String>, next: BuildJob) -> bool {
    match build_stage(job) {
        Some((stage, behind)) => match outcome {
            Ok(_) => next == behind,
            Err(detail) => next is Failed && next->Failed_0@ == failure_text(stage, detail@),
        },
        None => next == job,
    }
}

impl BuildJob {
    /// The building of a wallet at its start.
    pub fn start() -> (r: BuildJob)
        ensures
            r == BuildJob::NodeClient,
    {
        BuildJob::NodeClient
    }

    /// Where the building goes when the thing to do ended in `outcome`.
    pub fn advance(self, outcome: Result<(), String>) -> (next: BuildJob)
        ensures
            build_step(self, outcome, next),
    {
        let (stage, behind) = match self {
            BuildJob::NodeClient => (Stage::NodeClient, BuildJob::Wallet),
            BuildJob::Wallet => (Stage::WalletInit, BuildJob::Provider),
            BuildJob::Provider => (Stage::LifecycleProvider, BuildJob::Directory),
            BuildJob::Directory => (Stage::DataDirectory, BuildJob::Built),
            BuildJob::Built => {
                return BuildJob::Built;
            },
            BuildJob::Failed(message) => {
                return BuildJob::Failed(message);
            },
        };
        match outcome {
            Ok(_) => behind,
            Err(detail) => BuildJob::Failed(failure(stage, detail.as_str())),
        }
    }
}

/// How many steps the building of a wallet can still take.
pub open spec fn build_steps_left(job: BuildJob) -> nat {
    match job {
        BuildJob::NodeClient => 4,
        BuildJob::Wallet => 3,
        BuildJob::Provider => 2,
        BuildJob::Directory => 1,
        BuildJob::Built => 0,
        BuildJob::Failed(_) => 0,
    }
}

/// Building a wallet comes to an end, whatever its steps end in; and it is built only where all
/// of them succeed.
pub proof fn law_building_ends(job: BuildJob, outcome: Result<(), String>, next: BuildJob)
    requires
        build_step(job, outcome, next),
        !(job is Built),
        !(job is Failed),
    ensures
        build_steps_left(next) < build_steps_left(job),
        outcome is Err <==> next is Failed,
{
}

/// The state of opening a wallet, by what is to be done next.
pub enum OpenJob {
    /// The wallet's directory is to be created.
    CreateDirectory,
    /// The wallet is to be built.
    Build,
    /// The configuration is to be looked for.
    LookForConfig,
    /// It is to be created.
    CreateConfig,
    /// The seed is to be looked for.
    LookForSeed,
    /// The wallet is to be restored from the mnemonic.
    RestoreWallet,
    /// The wallet is to be opened with the password.
    Open,
    /// The listener is to be started.
    Listen,
    /// The wallet is open.
    Ready,
    /// A step failed, with this error text.
    Failed(String),
}

/// One step of opening a wallet: where `job` goes when what it asks for ends in `outcome`. Where
/// something was looked for, the outcome says whether it is there; elsewhere the flag does not
/// matter.
pub open spec fn open_step(job: OpenJob, outcome: Result<bool, String>, next: OpenJob) -> bool {
    match job {
        OpenJob::CreateDirectory => match outcome {
            Ok(_) => next == OpenJob::Build,
            Err(detail) => next is Failed && next->Failed_0@ == failure_text(
                Stage::DataDirectoryCreate,
                detail@,
            ),
        },
        OpenJob::Build => match outcome {
            Ok(_) => next == OpenJob::LookForConfig,
            // The error text of the building is ready as it is.
            Err(message) => next is Failed && next->Failed_0@ == message@,
        },
        OpenJob::LookForConfig => if outcome == Ok::<bool, String>(true) {
            next == OpenJob::LookForSeed
        } else {
            next == OpenJob::CreateConfig
        },
        OpenJob::CreateConfig => match outcome {
            Ok(_) => next == OpenJob::LookForSeed,
            Err(detail) => next is Failed && next->Failed_0@ == failure_text(
                Stage::ConfigCreate,
                detail@,
            ),
        },
        OpenJob::LookForSeed => if outcome == Ok::<bool, String>(true) {
            next == OpenJob::Open
        } else {
            next == OpenJob::RestoreWallet
        },
        OpenJob::RestoreWallet => match outcome {
            Ok(_) => next == OpenJob::Open,
            Err(detail) => next is Failed && next->Failed_0@ == failure_text(
                Stage::WalletRestore,
                detail@,
            ),
        },
        OpenJob::Open => match outcome {
            Ok(_) => next == OpenJob::Listen,
            Err(detail) => next is Failed && next->Failed_0@ == failure_text(
                Stage::WalletOpen,
                detail@,
            ),
        },
        // A wallet is open with or without a listener.
        OpenJob::Listen => next == OpenJob::Ready,
        OpenJob::Ready => next == job,
        OpenJob::Failed(_) => next == job,
    }
}

impl OpenJob {
    /// The opening of a wallet at its start.
    pub fn start() -> (r: OpenJob)
        ensures
            r == OpenJob::CreateDirectory,
    {
        OpenJob::CreateDirectory
    }

    /// Where the opening goes when the thing to do ended in `outcome`.
    pub fn advance(self, outcome: Result<bool, String>) -> (next: OpenJob)
        ensures
            open_step(self, outcome, next),
    {
        match self {
            OpenJob::CreateDirectory => match outcome {
                Ok(_) => OpenJob::Build,
                Err(detail) => OpenJob::Failed(
                    failure(Stage::DataDirectoryCreate, detail.as_str()),
                ),
            },
            OpenJob::Build => match outcome {
                Ok(_) => OpenJob::LookForConfig,
                Err(message) => OpenJob::Failed(message),
            },
            OpenJob::LookForConfig => match outcome {
                Ok(true) => OpenJob::LookForSeed,
                _ => OpenJob::CreateConfig,
            },
            OpenJob::CreateConfig => match outcome {
                Ok(_) => OpenJob::LookForSeed,
                Err(detail) => OpenJob::Failed(failure(Stage::ConfigCreate, detail.as_str())),
            },
            OpenJob::LookForSeed => match outcome {
                Ok(true) => OpenJob::Open,
                _ => OpenJob::RestoreWallet,
            },
            OpenJob::RestoreWallet => match outcome {
                Ok(_) => OpenJob::Open,
                Err(detail) => OpenJob::Failed(failure(Stage::WalletRestore, detail.as_str())),
            },
            OpenJob::Open => match outcome {
                Ok(_) => OpenJob::Listen,
                Err(detail) => OpenJob::Failed(failure(Stage::WalletOpen, detail.as_str())),
            },
            OpenJob::Listen => OpenJob::Ready,
            OpenJob::Ready => OpenJob::Ready,
            OpenJob::Failed(message) => OpenJob::Failed(message),
        }
    }
}

/// How many steps the opening of a wallet can still take.
pub open spec fn steps_left(job: OpenJob) -> nat {
    match job {
        OpenJob::CreateDirectory => 8,
        OpenJob::Build => 7,
        OpenJob::LookForConfig => 6,
        OpenJob::CreateConfig => 5,
        OpenJob::LookForSeed => 4,
        OpenJob::RestoreWallet => 3,
        OpenJob::Open => 2,
        OpenJob::Listen => 1,
        OpenJob::Ready => 0,
        OpenJob::Failed(_) => 0,
    }
}

/// Opening a wallet comes to an end, whatever its steps end in.
pub proof fn law_opening_ends(job: OpenJob, outcome: Result<bool, String>, next: OpenJob)
    requires
        open_step(job, outcome, next),
        !(job is Ready),
        !(job is Failed),
    ensures
        steps_left(next) < steps_left(job),
{
}

/// A seed that is there is never written over: a wallet is restored from the mnemonic only where
/// no seed was found.
pub proof fn law_seed_is_kept(job: OpenJob, outcome: Result<bool, String>, next: OpenJob)
    requires
        open_step(job, outcome, next),
        next is RestoreWallet,
    ensures
        job is LookForSeed,
        outcome != Ok::<bool, String>(true),
{
}

/// A wallet is built in this order: the client, the wallet, its provider, its directory.
pub proof fn law_building_goes_through_all_its_steps(
    making: BuildJob,
    providing: BuildJob,
    placing: BuildJob,
    built: BuildJob,
)
    requires
        call_ensures(BuildJob::advance, (BuildJob::NodeClient, Ok(())), making),
        call_ensures(BuildJob::advance, (making, Ok(())), providing),
        call_ensures(BuildJob::advance, (providing, Ok(())), placing),
        call_ensures(BuildJob::advance, (placing, Ok(())), built),
    ensures
        making is Wallet,
        providing is Provider,
        placing is Directory,
        built is Built,
{
}

/// A step that fails ends the building, with an error text that says which it was and why.
pub proof fn law_failed_steps_end_the_building(job: BuildJob, detail: String, next: BuildJob)
    requires
        call_ensures(BuildJob::advance, (job, Err(detail)), next),
    ensures
        job is NodeClient ==> next is Failed && next->Failed_0@ == "Epic node client: "@ + detail@,
        job is Wallet ==> next is Failed && next->Failed_0@ == "Epic wallet init: "@ + detail@,
        job is Provider ==> next is Failed && next->Failed_0@ == "Epic lifecycle provider: "@
            + detail@,
        job is Directory ==> next is Failed && next->Failed_0@ == "Epic data directory: "@
            + detail@,
        job is Built || job is Failed ==> next == job,
{
    law_failures_say_what_failed_and_why(detail@);
}

/// Opening a wallet goes through all its steps: the directory, the building, the configuration
/// and the seed, each of which is made only if it is not there, the opening and the listener.
pub proof fn law_opening_goes_through_all_its_steps(
    done: bool,
    there: bool,
    building: OpenJob,
    configured: OpenJob,
    behind_config: OpenJob,
    created: OpenJob,
    behind_seed: OpenJob,
    restored: OpenJob,
    opened: OpenJob,
    ready: OpenJob,
)
    requires
        call_ensures(OpenJob::advance, (OpenJob::CreateDirectory, Ok(done)), building),
        call_ensures(OpenJob::advance, (building, Ok(done)), configured),
        call_ensures(OpenJob::advance, (configured, Ok(there)), behind_config),
        call_ensures(OpenJob::advance, (OpenJob::CreateConfig, Ok(done)), created),
        call_ensures(OpenJob::advance, (OpenJob::LookForSeed, Ok(there)), behind_seed),
        call_ensures(OpenJob::advance, (OpenJob::RestoreWallet, Ok(done)), restored),
        call_ensures(OpenJob::advance, (OpenJob::Open, Ok(done)), opened),
        call_ensures(OpenJob::advance, (OpenJob::Listen, Ok(done)), ready),
    ensures
        building is Build,
        configured is LookForConfig,
        there ==> behind_config is LookForSeed,
        !there ==> behind_config is CreateConfig,
        created is LookForSeed,
        there ==> behind_seed is Open,
        !there ==> behind_seed is RestoreWallet,
        restored is Open,
        opened is Listen,
        ready is Ready,
{
}

/// A step that fails ends the opening, with an error text that says which it was and why, unless
/// the wallet is open by then; an end is never undone.
pub proof fn law_failed_steps_end_the_opening(
    job: OpenJob,
    detail: String,
    next: OpenJob,
    ended: OpenJob,
    outcome: Result<bool, String>,
    after: OpenJob,
)
    requires
        call_ensures(OpenJob::advance, (job, Err(detail)), next),
        ended is Ready || ended is Failed,
        call_ensures(OpenJob::advance, (ended, outcome), after),
    ensures
        job is CreateDirectory ==> next is Failed && next->Failed_0@
            == "Epic data directory create: "@ + detail@,
        job is Build ==> next is Failed && next->Failed_0@ == detail@,
        job is CreateConfig ==> next is Failed && next->Failed_0@ == "Epic config create: "@
            + detail@,
        job is RestoreWallet ==> next is Failed && next->Failed_0@ == "Epic wallet restore: "@
            + detail@,
        job is Open ==> next is Failed && next->Failed_0@ == "Epic wallet open: "@ + detail@,
        job is Listen ==> next is Ready,
        after == ended,
{
    law_failures_say_what_failed_and_why(detail@);
}

/// What cannot be looked for counts as not there: the configuration is made, and the wallet is
/// restored.
pub proof fn law_what_cannot_be_looked_for_is_not_there(
    detail: String,
    behind_config: OpenJob,
    behind_seed: OpenJob,
)
    requires
        call_ensures(OpenJob::advance, (OpenJob::LookForConfig, Err(detail)), behind_config),
        call_ensures(OpenJob::advance, (OpenJob::LookForSeed, Err(detail)), behind_seed),
    ensures
        behind_config is CreateConfig,
        behind_seed is RestoreWallet,
{
}

} // verus!
