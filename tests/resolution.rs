use mcp_server_github::cache::{plan_install, stale_entries, version_dir, VersionedCache};
use mcp_server_github::command::{
    binary_command, plan_command, wants_wrapper, wrapper_command, CommandPlan, Settings,
};
use mcp_server_github::credential::resolve_token;
use mcp_server_github::error::ResolveError;
use mcp_server_github::platform::{
    archive_kind, platform_tokens, Arch, ArchiveKind, Os,
};
use mcp_server_github::release::{asset_name, select_asset, Asset, Release};
use mcp_server_github::wrapper::{
    dependency_name, interpreter_command, locate_wrapper, wrapper_args, Interpreter,
    WrapperPresence, WrapperScript,
};

fn s(x: &str) -> String {
    x.to_string()
}

fn asset(name: &str) -> Asset {
    Asset { name: s(name), download_url: format!("https://example.com/{name}") }
}

fn none_present() -> WrapperPresence {
    WrapperPresence { powershell: false, shell: false, universal: false }
}

#[test]
fn platform_tokens_are_total_and_stable() {
    let oses = [Os::Mac, Os::Linux, Os::Windows];
    let arches = [Arch::Aarch64, Arch::X86, Arch::X8664];
    for os in oses {
        for arch in arches {
            let a = platform_tokens(os, arch);
            let b = platform_tokens(os, arch);
            assert!(!a.0.is_empty() && !a.1.is_empty() && !a.2.is_empty());
            assert_eq!(a, b);
        }
    }
    assert_eq!(platform_tokens(Os::Mac, Arch::Aarch64), (s("Darwin"), s("arm64"), s("tar.gz")));
    assert_eq!(platform_tokens(Os::Linux, Arch::X86), (s("Linux"), s("i386"), s("tar.gz")));
    assert_eq!(platform_tokens(Os::Windows, Arch::X8664), (s("Windows"), s("x86_64"), s("zip")));
    assert_eq!(archive_kind(Os::Windows), ArchiveKind::Zip);
    assert_eq!(archive_kind(Os::Linux), ArchiveKind::GzipTar);
}

#[test]
fn asset_names_follow_convention() {
    assert_eq!(asset_name(Os::Linux, Arch::X8664), "github-mcp-server_Linux_x86_64.tar.gz");
    assert_eq!(asset_name(Os::Windows, Arch::Aarch64), "github-mcp-server_Windows_arm64.zip");
    assert_eq!(asset_name(Os::Mac, Arch::X86), "github-mcp-server_Darwin_i386.tar.gz");
}

#[test]
fn selector_rejects_prefix_and_superset_names() {
    let release = Release {
        version: s("1.0.0"),
        assets: vec![
            asset("github-mcp-server_Linux_x86_64.tar.gz.sha256"),
            asset("github-mcp-server_Linux_x86_64"),
            asset("github-mcp-server_Linux_x86_64.tar.gz-debug"),
        ],
    };
    match select_asset(&release, Os::Linux, Arch::X8664) {
        Err(ResolveError::AssetNotFound(n)) => {
            assert_eq!(n, "github-mcp-server_Linux_x86_64.tar.gz")
        }
        other => panic!("unexpected {:?}", other),
    }
}

#[test]
fn selector_picks_exact_name_first_match() {
    let release = Release {
        version: s("1.0.0"),
        assets: vec![
            asset("github-mcp-server_Darwin_arm64.tar.gz"),
            Asset { name: s("github-mcp-server_Linux_arm64.tar.gz"), download_url: s("u1") },
            Asset { name: s("github-mcp-server_Linux_arm64.tar.gz"), download_url: s("u2") },
        ],
    };
    let a = select_asset(&release, Os::Linux, Arch::Aarch64).unwrap();
    assert_eq!(a.name, "github-mcp-server_Linux_arm64.tar.gz");
    assert_eq!(a.download_url, "u1");
}

#[test]
fn selector_fails_on_empty_release() {
    let release = Release { version: s("1.0.0"), assets: vec![] };
    assert!(matches!(
        select_asset(&release, Os::Windows, Arch::X86),
        Err(ResolveError::AssetNotFound(_))
    ));
}

#[test]
fn install_plan_layout() {
    let release = Release {
        version: s("v0.5.0"),
        assets: vec![asset("github-mcp-server_Windows_x86_64.zip")],
    };
    let p = plan_install(&release, Os::Windows, Arch::X8664).unwrap();
    assert_eq!(p.version_dir, "github-mcp-server-v0.5.0");
    assert_eq!(p.binary_path, "github-mcp-server-v0.5.0/github-mcp-server");
    assert_eq!(p.download_url, "https://example.com/github-mcp-server_Windows_x86_64.zip");
    assert_eq!(p.archive, ArchiveKind::Zip);
    assert_eq!(version_dir(&s("2.0")), "github-mcp-server-2.0");
    assert!(matches!(
        plan_install(&release, Os::Linux, Arch::X8664),
        Err(ResolveError::AssetNotFound(_))
    ));
}

#[test]
fn memoized_path_skips_resolution() {
    let mut cache = VersionedCache::new();
    assert_eq!(cache.cached_path(), None);
    assert_eq!(cache.fast_path(true), None);
    let p = cache.remember(s("github-mcp-server-1.2.0/github-mcp-server"));
    assert_eq!(p, "github-mcp-server-1.2.0/github-mcp-server");
    assert_eq!(cache.fast_path(true), Some(p.clone()));
    assert_eq!(cache.fast_path(true), Some(p.clone()));
}

#[test]
fn deleted_cached_path_forces_resolution() {
    let mut cache = VersionedCache::new();
    cache.remember(s("github-mcp-server-1.0.0/github-mcp-server"));
    assert_eq!(cache.fast_path(false), None);
    cache.remember(s("github-mcp-server-1.1.0/github-mcp-server"));
    assert_eq!(cache.fast_path(true), Some(s("github-mcp-server-1.1.0/github-mcp-server")));
}

#[test]
fn pruning_removes_every_other_entry() {
    let entries = vec![
        s("github-mcp-server-1.0.0"),
        s("github-mcp-server-2.0.0"),
        s("leftover"),
        s("github-mcp-server-2.0.0"),
    ];
    let stale = stale_entries(&entries, &s("github-mcp-server-2.0.0"));
    assert_eq!(stale, vec![s("github-mcp-server-1.0.0"), s("leftover")]);
    assert!(stale_entries(&vec![], &s("x")).is_empty());
    assert!(stale_entries(&vec![s("x")], &s("x")).is_empty());
}

#[test]
fn token_precedence() {
    let some = |x: &str| Some(s(x));
    assert_eq!(resolve_token(&some("set"), &some("a"), &some("b")), Ok(s("set")));
    assert_eq!(resolve_token(&None, &some("a"), &some("b")), Ok(s("a")));
    assert_eq!(resolve_token(&None, &None, &some("b")), Ok(s("b")));
    assert_eq!(resolve_token(&some("set"), &None, &some("b")), Ok(s("set")));
    assert_eq!(resolve_token(&some(""), &some(""), &some("b")), Ok(s("b")));
    assert_eq!(resolve_token(&None, &None, &None), Err(ResolveError::MissingCredential));
    assert_eq!(resolve_token(&some(""), &None, &some("")), Err(ResolveError::MissingCredential));
}

#[test]
fn wrapper_location_policy() {
    assert!(locate_wrapper(Os::Linux, none_present()).is_none());
    assert!(locate_wrapper(Os::Windows, none_present()).is_none());
    assert!(locate_wrapper(Os::Mac, none_present()).is_none());
    let all = WrapperPresence { powershell: true, shell: true, universal: true };
    let w = locate_wrapper(Os::Windows, all).unwrap();
    assert_eq!(w.interpreter, Interpreter::PowerShell);
    assert_eq!(w.path, "wrappers/github-mcp-wrapper.ps1");
    let w = locate_wrapper(Os::Mac, all).unwrap();
    assert_eq!(w.interpreter, Interpreter::Shell);
    assert_eq!(w.path, "wrappers/github-mcp-wrapper.sh");
    let only_sh = WrapperPresence { powershell: false, shell: true, universal: false };
    assert!(locate_wrapper(Os::Windows, only_sh).is_none());
    let ps_js = WrapperPresence { powershell: true, shell: false, universal: true };
    let w = locate_wrapper(Os::Linux, ps_js).unwrap();
    assert_eq!(w.interpreter, Interpreter::UniversalRuntime);
    assert_eq!(w.path, "wrappers/github-mcp-wrapper.js");
    assert_eq!(interpreter_command(Interpreter::UniversalRuntime), "node");
    assert_eq!(dependency_name(Interpreter::Shell), "Bash shell");
}

#[test]
fn powershell_arguments() {
    let w = WrapperScript { interpreter: Interpreter::PowerShell, path: s("w.ps1") };
    assert_eq!(wrapper_args(&w), vec![s("-ExecutionPolicy"), s("Bypass"), s("-File"), s("w.ps1")]);
    let c = wrapper_command(Some(w), true).unwrap();
    assert_eq!(c.command, "powershell");
    assert!(c.env.is_empty());
}

#[test]
fn wrapper_errors() {
    assert_eq!(wrapper_command(None, true).unwrap_err(), ResolveError::WrapperNotFound);
    let w = WrapperScript { interpreter: Interpreter::UniversalRuntime, path: s("w.js") };
    assert_eq!(
        wrapper_command(Some(w), false).unwrap_err(),
        ResolveError::WrapperPrerequisiteMissing(s("Node.js"))
    );
    let e = ResolveError::WrapperPrerequisiteMissing(s("Node.js"));
    assert_eq!(
        e.message(),
        "Wrapper script found but Node.js not available. Please install Node.js or disable wrapper mode."
    );
    assert_eq!(
        ResolveError::AssetNotFound(s("a.zip")).message(),
        "no asset found matching \"a.zip\""
    );
}

#[test]
fn wrapper_not_found_only_in_wrapper_mode() {
    let off = Settings { token: Some(s("t")), use_wrapper: Some(false) };
    assert!(!wants_wrapper(&off));
    assert!(!wants_wrapper(&Settings::empty()));
    match plan_command(&off, None, false, &None, &None) {
        Ok(CommandPlan::NeedsBinary(t)) => assert_eq!(t, "t"),
        other => panic!("unexpected {:?}", other),
    }
    let on = Settings { token: Some(s("t")), use_wrapper: Some(true) };
    assert!(matches!(
        plan_command(&on, locate_wrapper(Os::Linux, none_present()), true, &None, &None),
        Err(ResolveError::WrapperNotFound)
    ));
}

#[test]
fn scenario_token_and_fresh_release() {
    let settings = Settings { token: Some(s("abc")), use_wrapper: Some(false) };
    let token = match plan_command(&settings, None, false, &None, &None).unwrap() {
        CommandPlan::NeedsBinary(t) => t,
        CommandPlan::Ready(c) => panic!("unexpected {:?}", c),
    };
    let mut cache = VersionedCache::new();
    assert_eq!(cache.fast_path(false), None);
    let release = Release {
        version: s("1.2.0"),
        assets: vec![asset("github-mcp-server_Linux_x86_64.tar.gz")],
    };
    let plan = plan_install(&release, Os::Linux, Arch::X8664).unwrap();
    let path = cache.remember(plan.binary_path);
    let c = binary_command(path, token);
    assert_eq!(c.command, "github-mcp-server-1.2.0/github-mcp-server");
    assert_eq!(c.args, vec![s("stdio")]);
    assert_eq!(c.env, vec![(s("GITHUB_PERSONAL_ACCESS_TOKEN"), s("abc"))]);
}

#[test]
fn scenario_linux_shell_wrapper() {
    let settings = Settings { token: None, use_wrapper: Some(true) };
    let present = WrapperPresence { powershell: false, shell: true, universal: false };
    let found = locate_wrapper(Os::Linux, present);
    match plan_command(&settings, found, true, &None, &None).unwrap() {
        CommandPlan::Ready(c) => {
            assert_eq!(c.command, "bash");
            assert_eq!(c.args, vec![s("wrappers/github-mcp-wrapper.sh")]);
            assert!(c.env.is_empty());
        }
        other => panic!("unexpected {:?}", other),
    }
}

#[test]
fn scenario_missing_credential() {
    let settings = Settings { token: None, use_wrapper: None };
    assert_eq!(
        plan_command(&settings, None, false, &None, &None).unwrap_err(),
        ResolveError::MissingCredential
    );
    assert!(ResolveError::MissingCredential.message().starts_with("No GitHub token found."));
}
