use altbase_epic::request::EpicRequest;
use altbase_epic::wallet::{wallet_settings, BuildJob, Chain, OpenJob, ScopeRegistry};

#[test]
fn wallets_are_set_up_as_the_request_says() {
    let mut req = EpicRequest {
        action: "ensure".to_string(),
        mnemonic: None,
        password: None,
        data_dir: None,
        node_url: None,
        restore_start_height: None,
        to: None,
        amount: None,
        fee: None,
        send_max: None,
        memo: None,
    };
    let settings = wallet_settings(&req);
    assert_eq!(settings.chain, Chain::Mainnet);
    assert_eq!(settings.data_file_dir, "epic-light");
    assert_eq!(settings.check_node_api_http_addr, "https://api.altbase.io");
    assert_eq!(settings.node_api_secret_path, None);
    req.data_dir = Some("here".to_string());
    req.node_url = Some("http://n//".to_string());
    let settings = wallet_settings(&req);
    assert_eq!(settings.data_file_dir, "here");
    assert_eq!(settings.check_node_api_http_addr, "http://n");
}

#[test]
fn wallets_are_built_step_by_step() {
    let mut job = BuildJob::start();
    let mut steps = Vec::new();
    loop {
        steps.push(match job {
            BuildJob::NodeClient => "client",
            BuildJob::Wallet => "wallet",
            BuildJob::Provider => "provider",
            BuildJob::Directory => "directory",
            BuildJob::Built => break,
            BuildJob::Failed(message) => panic!("{}", message),
        });
        job = job.advance(Ok(()));
    }
    assert_eq!(steps, vec!["client", "wallet", "provider", "directory"]);
}

#[test]
fn failed_steps_end_the_building() {
    let failed = |job: BuildJob| match job.advance(Err("why".to_string())) {
        BuildJob::Failed(message) => message,
        _ => panic!("not failed"),
    };
    assert_eq!(failed(BuildJob::NodeClient), "Epic node client: why");
    assert_eq!(failed(BuildJob::Wallet), "Epic wallet init: why");
    assert_eq!(failed(BuildJob::Provider), "Epic lifecycle provider: why");
    assert_eq!(failed(BuildJob::Directory), "Epic data directory: why");
    assert_eq!(failed(BuildJob::Failed("first".to_string())), "first");
    assert!(matches!(BuildJob::Built.advance(Err("why".to_string())), BuildJob::Built));
}

#[test]
fn work_is_claimed_once_until_it_is_given_up() {
    let mut registry = ScopeRegistry::new();
    assert!(registry.claim("a"));
    assert!(!registry.claim("a"));
    assert!(registry.claim("b"));
    registry.release("a");
    assert!(!registry.claim("b"));
    assert!(registry.claim("a"));
    registry.release("never");
}

/// Opens a wallet whose steps all succeed.
fn open(config: bool, seed: bool) -> Vec<&'static str> {
    let mut job = OpenJob::start();
    let mut steps = Vec::new();
    loop {
        let found = match job {
            OpenJob::CreateDirectory => {
                steps.push("directory");
                false
            }
            OpenJob::Build => {
                steps.push("build");
                false
            }
            OpenJob::LookForConfig => config,
            OpenJob::CreateConfig => {
                steps.push("config");
                false
            }
            OpenJob::LookForSeed => seed,
            OpenJob::RestoreWallet => {
                steps.push("restore");
                false
            }
            OpenJob::Open => {
                steps.push("open");
                false
            }
            OpenJob::Listen => {
                steps.push("listen");
                false
            }
            OpenJob::Ready => return steps,
            OpenJob::Failed(message) => panic!("{}", message),
        };
        job = job.advance(Ok(found));
    }
}

#[test]
fn wallets_are_opened_step_by_step() {
    assert_eq!(
        open(false, false),
        vec!["directory", "build", "config", "restore", "open", "listen"]
    );
    assert_eq!(open(true, false), vec!["directory", "build", "restore", "open", "listen"]);
    assert_eq!(open(false, true), vec!["directory", "build", "config", "open", "listen"]);
    assert_eq!(open(true, true), vec!["directory", "build", "open", "listen"]);
}

#[test]
fn failed_steps_end_the_opening() {
    let failed = |job: OpenJob| match job.advance(Err("why".to_string())) {
        OpenJob::Failed(message) => message,
        _ => panic!("not failed"),
    };
    assert_eq!(failed(OpenJob::CreateDirectory), "Epic data directory create: why");
    assert_eq!(failed(OpenJob::Build), "why");
    assert_eq!(failed(OpenJob::CreateConfig), "Epic config create: why");
    assert_eq!(failed(OpenJob::RestoreWallet), "Epic wallet restore: why");
    assert_eq!(failed(OpenJob::Open), "Epic wallet open: why");
    assert_eq!(failed(OpenJob::Failed("first".to_string())), "first");
}

#[test]
fn what_cannot_be_looked_up_is_not_there() {
    let looked = OpenJob::LookForSeed.advance(Err("denied".to_string()));
    assert!(matches!(looked, OpenJob::RestoreWallet));
    let looked = OpenJob::LookForConfig.advance(Err("denied".to_string()));
    assert!(matches!(looked, OpenJob::CreateConfig));
    let listening = OpenJob::Listen.advance(Err("busy".to_string()));
    assert!(matches!(listening, OpenJob::Ready));
}
