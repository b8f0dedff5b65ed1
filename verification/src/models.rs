//! The request and response model: what a parsed configuration says, with a
//! mathematical view of every type that holds text.

use vstd::prelude::*;
use crate::text::{push_str, push_decimal, to_owned_string, decimal};

verus! {

/// Selects which containment backend runs the script.
#[derive(Clone, Copy, Debug, PartialEq, Eq, Structural)]
pub enum ContainmentBackend {
    /// Windows process-level containment; `"processcontainer"` on the wire.
    ProcessContainer,
    /// Linux container via the WSL Container SDK.
    Wslc,
    /// LXC Linux container isolation.
    Lxc,
    /// VM-based isolation.
    Vm,
    /// MicroVM isolation via the Windows Hypervisor Platform.
    MicroVm,
    /// MicroVM isolation via Hyperlight + Unikraft.
    Hyperlight,
    /// Windows Sandbox VM isolation.
    WindowsSandbox,
    /// Process isolation via the Isolation Session API.
    IsolationSession,
    /// macOS Seatbelt sandbox.
    Seatbelt,
    /// Unprivileged Linux sandboxing via Bubblewrap.
    Bubblewrap,
}

impl Default for ContainmentBackend {
    fn default() -> (r: Self)
        ensures
            r == ContainmentBackend::ProcessContainer,
    {
        ContainmentBackend::ProcessContainer
    }
}

/// The canonical wire string of each backend.
pub open spec fn spec_wire_name(b: ContainmentBackend) -> Seq<char> {
    match b {
        ContainmentBackend::ProcessContainer => "processcontainer"@,
        ContainmentBackend::Wslc => "wslc"@,
        ContainmentBackend::Lxc => "lxc"@,
        ContainmentBackend::Vm => "vm"@,
        ContainmentBackend::MicroVm => "microvm"@,
        ContainmentBackend::Hyperlight => "hyperlight"@,
        ContainmentBackend::WindowsSandbox => "windows_sandbox"@,
        ContainmentBackend::IsolationSession => "isolation_session"@,
        ContainmentBackend::Seatbelt => "seatbelt"@,
        ContainmentBackend::Bubblewrap => "bubblewrap"@,
    }
}

/// The JSON path of each backend's own configuration section, if it has one.
pub open spec fn spec_section_path(b: ContainmentBackend) -> Option<Seq<char>> {
    match b {
        ContainmentBackend::ProcessContainer => Some("processContainer"@),
        ContainmentBackend::Lxc => Some("lxc"@),
        ContainmentBackend::WindowsSandbox => Some("experimental.windows_sandbox"@),
        ContainmentBackend::Wslc => Some("experimental.wslc"@),
        ContainmentBackend::Seatbelt => Some("experimental.seatbelt"@),
        ContainmentBackend::IsolationSession => Some("experimental.isolation_session"@),
        ContainmentBackend::Bubblewrap | ContainmentBackend::Hyperlight
        | ContainmentBackend::MicroVm | ContainmentBackend::Vm => None,
    }
}

impl ContainmentBackend {
    /// Canonical wire string matching the schema's `containment` values.
    pub fn wire_name(&self) -> (r: &'static str)
        ensures
            r@ == spec_wire_name(*self),
    {
        match self {
            ContainmentBackend::ProcessContainer => "processcontainer",
            ContainmentBackend::Wslc => "wslc",
            ContainmentBackend::Lxc => "lxc",
            ContainmentBackend::Vm => "vm",
            ContainmentBackend::MicroVm => "microvm",
            ContainmentBackend::Hyperlight => "hyperlight",
            ContainmentBackend::WindowsSandbox => "windows_sandbox",
            ContainmentBackend::IsolationSession => "isolation_session",
            ContainmentBackend::Seatbelt => "seatbelt",
            ContainmentBackend::Bubblewrap => "bubblewrap",
        }
    }

    /// JSON path of this backend's per-backend config section, if any.
    /// Backends without a section reject any backend section paired with them.
    pub fn section_path(&self) -> (r: Option<&'static str>)
        ensures
            match r {
                None => spec_section_path(*self) is None,
                Some(p) => spec_section_path(*self) == Some(p@),
            },
    {
        match self {
            ContainmentBackend::ProcessContainer => Some("processContainer"),
            ContainmentBackend::Lxc => Some("lxc"),
            ContainmentBackend::WindowsSandbox => Some("experimental.windows_sandbox"),
            ContainmentBackend::Wslc => Some("experimental.wslc"),
            ContainmentBackend::Seatbelt => Some("experimental.seatbelt"),
            ContainmentBackend::IsolationSession => Some("experimental.isolation_session"),
            ContainmentBackend::Bubblewrap | ContainmentBackend::Hyperlight
            | ContainmentBackend::MicroVm | ContainmentBackend::Vm => None,
        }
    }
}

/// How the Seatbelt backend launches the sandboxed process.
#[derive(Clone, Copy, Debug, PartialEq, Eq, Structural)]
pub enum LaunchMethod {
    /// fork, sandbox_init, exec (the default).
    Exec,
    /// Launch through macOS LaunchServices (`open`).
    Open,
}

impl Default for LaunchMethod {
    fn default() -> (r: Self)
        ensures
            r == LaunchMethod::Exec,
    {
        LaunchMethod::Exec
    }
}

/// Configuration of the Seatbelt backend (`experimental.seatbelt`).
#[derive(Clone, Debug)]
pub struct SeatbeltConfig {
    /// Optional raw profile replacing the generated one.
    pub profile_override: Option<String>,
    /// Allow the Mach services that GUI applications need.
    pub gui_access: bool,
    /// How to launch the sandboxed process.
    pub launch_method: LaunchMethod,
    /// Allow the inner process to allocate its own pseudo-terminals.
    pub nested_pty: bool,
    /// Allow Keychain access.
    pub keychain_access: bool,
    /// Additional Mach service names to allow.
    pub extra_mach_lookups: Vec<String>,
}

/// What a [`SeatbeltConfig`] holds, as plain values.
pub struct SeatbeltConfigView {
    pub profile_override: Option<Seq<char>>,
    pub gui_access: bool,
    pub launch_method: LaunchMethod,
    pub nested_pty: bool,
    pub keychain_access: bool,
    pub extra_mach_lookups: Seq<Seq<char>>,
}

pub open spec fn opt_view(o: Option<String>) -> Option<Seq<char>> {
    match o {
        Some(s) => Some(s@),
        None => None,
    }
}

pub open spec fn strings_view(v: Seq<String>) -> Seq<Seq<char>> {
    v.map_values(|s: String| s@)
}

impl View for SeatbeltConfig {
    type V = SeatbeltConfigView;

    open spec fn view(&self) -> SeatbeltConfigView {
        SeatbeltConfigView {
            profile_override: opt_view(self.profile_override),
            gui_access: self.gui_access,
            launch_method: self.launch_method,
            nested_pty: self.nested_pty,
            keychain_access: self.keychain_access,
            extra_mach_lookups: strings_view(self.extra_mach_lookups@),
        }
    }
}

impl Default for SeatbeltConfig {
    fn default() -> (r: Self)
        ensures
            r@ == (SeatbeltConfigView {
                profile_override: None,
                gui_access: false,
                launch_method: LaunchMethod::Exec,
                nested_pty: true,
                keychain_access: false,
                extra_mach_lookups: Seq::empty(),
            }),
    {
        let r = SeatbeltConfig {
            profile_override: None,
            gui_access: false,
            launch_method: LaunchMethod::Exec,
            nested_pty: true,
            keychain_access: false,
            extra_mach_lookups: Vec::new(),
        };
        assert(strings_view(r.extra_mach_lookups@) =~= Seq::empty());
        r
    }
}

/// The default of `nestedPty`.
pub fn default_true() -> (r: bool)
    ensures
        r,
{
    true
}

/// Configuration of the Windows Sandbox backend.
#[derive(Clone, Debug)]
pub struct WindowsSandboxConfig {
    /// Idle timeout in milliseconds before the daemon tears the VM down.
    pub idle_timeout_ms: u32,
    /// Named pipe the daemon listens on.
    pub daemon_pipe_name: String,
}

/// What a [`WindowsSandboxConfig`] holds, as plain values.
pub struct WindowsSandboxConfigView {
    pub idle_timeout_ms: u32,
    pub daemon_pipe_name: Seq<char>,
}

impl View for WindowsSandboxConfig {
    type V = WindowsSandboxConfigView;

    open spec fn view(&self) -> WindowsSandboxConfigView {
        WindowsSandboxConfigView { idle_timeout_ms: self.idle_timeout_ms, daemon_pipe_name: self.daemon_pipe_name@ }
    }
}

impl Default for WindowsSandboxConfig {
    fn default() -> (r: Self)
        ensures
            r@ == (WindowsSandboxConfigView {
                idle_timeout_ms: 300_000,
                daemon_pipe_name: "wxc-windows-sandbox"@,
            }),
    {
        WindowsSandboxConfig { idle_timeout_ms: 300_000, daemon_pipe_name: to_owned_string("wxc-windows-sandbox") }
    }
}

/// Session size of the Isolation Session backend.
#[derive(Clone, Copy, Debug, PartialEq, Eq, Structural)]
pub enum IsolationSessionConfigurationId {
    Small,
    Medium,
    Large,
    /// Lightweight configuration for command-line workloads; the default.
    Composable,
}

impl Default for IsolationSessionConfigurationId {
    fn default() -> (r: Self)
        ensures
            r == IsolationSessionConfigurationId::Composable,
    {
        IsolationSessionConfigurationId::Composable
    }
}

/// Entra cloud-agent credentials. `wam_token` is a bearer token and is never
/// shown in diagnostic output.
#[derive(Clone)]
pub struct IsolationSessionUser {
    pub upn: String,
    pub wam_token: String,
}

/// What a [`IsolationSessionUser`] holds, as plain values.
pub struct IsolationSessionUserView {
    pub upn: Seq<char>,
    pub wam_token: Seq<char>,
}

impl View for IsolationSessionUser {
    type V = IsolationSessionUserView;

    open spec fn view(&self) -> IsolationSessionUserView {
        IsolationSessionUserView { upn: self.upn@, wam_token: self.wam_token@ }
    }
}

/// The diagnostic rendering of a user: the UPN, and the token replaced by
/// `<redacted>`.
pub open spec fn spec_user_debug(upn: Seq<char>) -> Seq<char> {
    "IsolationSessionUser { upn: \""@ + upn + "\", wam_token: \"<redacted>\" }"@
}

impl Default for IsolationSessionUser {
    fn default() -> (r: Self)
        ensures
            r@ == (IsolationSessionUserView { upn: Seq::empty(), wam_token: Seq::empty() }),
    {
        IsolationSessionUser { upn: String::new(), wam_token: String::new() }
    }
}

impl IsolationSessionUser {
    /// Diagnostic rendering that shows the UPN and hides the token.
    pub fn redacted_debug(&self) -> (r: String)
        ensures
            r@ == spec_user_debug(self.upn@),
    {
        let mut r = to_owned_string("IsolationSessionUser { upn: \"");
        push_str(&mut r, self.upn.as_str());
        push_str(&mut r, "\", wam_token: \"<redacted>\" }");
        r
    }
}

/// Configuration of the Isolation Session backend.
#[derive(Clone)]
pub struct IsolationSessionConfig {
    /// Session size/weight.
    pub configuration_id: IsolationSessionConfigurationId,
    /// Optional Entra cloud-agent credentials.
    pub user: Option<IsolationSessionUser>,
}

/// What a [`IsolationSessionConfig`] holds, as plain values.
pub struct IsolationSessionConfigView {
    pub configuration_id: IsolationSessionConfigurationId,
    pub user: Option<IsolationSessionUserView>,
}

pub open spec fn opt_user_view(u: Option<IsolationSessionUser>) -> Option<IsolationSessionUserView> {
    match u {
        Some(x) => Some(x@),
        None => None,
    }
}

impl View for IsolationSessionConfig {
    type V = IsolationSessionConfigView;

    open spec fn view(&self) -> IsolationSessionConfigView {
        IsolationSessionConfigView { configuration_id: self.configuration_id, user: opt_user_view(self.user) }
    }
}

impl Default for IsolationSessionConfig {
    fn default() -> (r: Self)
        ensures
            r@ == (IsolationSessionConfigView { configuration_id: IsolationSessionConfigurationId::Composable, user: None }),
    {
        IsolationSessionConfig { configuration_id: IsolationSessionConfigurationId::Composable, user: None }
    }
}

/// State-aware provision-phase configuration of the Isolation Session backend.
#[derive(Clone)]
pub struct IsolationSessionProvisionConfig {
    pub user: Option<IsolationSessionUser>,
}

impl Default for IsolationSessionProvisionConfig {
    fn default() -> (r: Self)
        ensures
            r.user is None,
    {
        IsolationSessionProvisionConfig { user: None }
    }
}

/// Configuration of the LXC backend.
#[derive(Clone, Debug)]
pub struct LxcConfig {
    /// Distribution of the container rootfs.
    pub distribution: String,
    /// Distribution release.
    pub release: String,
}

/// What a [`LxcConfig`] holds, as plain values.
pub struct LxcConfigView {
    pub distribution: Seq<char>,
    pub release: Seq<char>,
}

impl View for LxcConfig {
    type V = LxcConfigView;

    open spec fn view(&self) -> LxcConfigView {
        LxcConfigView { distribution: self.distribution@, release: self.release@ }
    }
}

impl Default for LxcConfig {
    fn default() -> (r: Self)
        ensures
            r@ == (LxcConfigView { distribution: Seq::empty(), release: Seq::empty() }),
    {
        LxcConfig { distribution: String::new(), release: String::new() }
    }
}

/// Default outbound network policy.
#[derive(Clone, Copy, Debug, PartialEq, Eq, Structural)]
pub enum NetworkPolicy {
    Allow,
    Block,
}

impl Default for NetworkPolicy {
    fn default() -> (r: Self)
        ensures
            r == NetworkPolicy::Block,
    {
        NetworkPolicy::Block
    }
}

/// How network policy is enforced.
#[derive(Clone, Copy, Debug, PartialEq, Eq, Structural)]
pub enum NetworkEnforcementMode {
    Capabilities,
    Firewall,
    Both,
}

impl Default for NetworkEnforcementMode {
    fn default() -> (r: Self)
        ensures
            r == NetworkEnforcementMode::Capabilities,
    {
        NetworkEnforcementMode::Capabilities
    }
}

/// Address of a network proxy.
#[derive(Clone, Debug)]
pub struct ProxyAddress {
    pub address: String,
    pub port: u16,
    /// The original URL text when the proxy was given as `{ "url": ... }`.
    pub original_url: Option<String>,
}

/// What a [`ProxyAddress`] holds, as plain values.
pub struct ProxyAddressView {
    pub address: Seq<char>,
    pub port: u16,
    pub original_url: Option<Seq<char>>,
}

impl View for ProxyAddress {
    type V = ProxyAddressView;

    open spec fn view(&self) -> ProxyAddressView {
        ProxyAddressView { address: self.address@, port: self.port, original_url: opt_view(self.original_url) }
    }
}

/// The URL of a proxy: the original URL if one was given, else the loopback
/// HTTP URL on the proxy's port.
pub open spec fn spec_proxy_url(a: ProxyAddressView) -> Seq<char> {
    match a.original_url {
        Some(u) => u,
        None => "http://127.0.0.1:"@ + decimal(a.port as nat),
    }
}

impl ProxyAddress {
    /// A proxy at `address:port`, given without a URL.
    pub fn new(address: String, port: u16) -> (r: Self)
        ensures
            r@ == (ProxyAddressView { address: address@, port, original_url: None }),
    {
        ProxyAddress { address, port, original_url: None }
    }

    /// A proxy address from a parsed URL, keeping the original text.
    pub fn from_url(url: &str, host: String, port: u16) -> (r: Self)
        ensures
            r@ == (ProxyAddressView { address: host@, port, original_url: Some(url@) }),
    {
        ProxyAddress { address: host, port, original_url: Some(to_owned_string(url)) }
    }

    /// The proxy's host.
    pub fn host(&self) -> (r: &str)
        ensures
            r@ == self.address@,
    {
        self.address.as_str()
    }

    /// The proxy's port.
    pub fn port(&self) -> (r: u16)
        ensures
            r == self.port,
    {
        self.port
    }

    /// The proxy URL: the original URL if one was provided, otherwise
    /// `http://127.0.0.1:{port}`.
    pub fn to_url(&self) -> (r: String)
        ensures
            r@ == spec_proxy_url(self@),
    {
        match &self.original_url {
            Some(u) => to_owned_string(u.as_str()),
            None => {
                let mut s = to_owned_string("http://127.0.0.1:");
                push_decimal(&mut s, self.port as u64);
                s
            },
        }
    }
}

/// Proxy configuration from `network.proxy`.
#[derive(Clone, Debug)]
pub struct ProxyConfig {
    pub address: Option<ProxyAddress>,
    pub builtin_test_server: bool,
}

/// What a [`ProxyConfig`] holds, as plain values.
pub struct ProxyConfigView {
    pub address: Option<ProxyAddressView>,
    pub builtin_test_server: bool,
}

pub open spec fn opt_proxy_view(a: Option<ProxyAddress>) -> Option<ProxyAddressView> {
    match a {
        Some(x) => Some(x@),
        None => None,
    }
}

impl View for ProxyConfig {
    type V = ProxyConfigView;

    open spec fn view(&self) -> ProxyConfigView {
        ProxyConfigView { address: opt_proxy_view(self.address), builtin_test_server: self.builtin_test_server }
    }
}

/// A proxy is in use when it has an address or is the builtin test server.
pub open spec fn spec_proxy_enabled(p: ProxyConfigView) -> bool {
    p.address is Some || p.builtin_test_server
}

impl ProxyConfig {
    /// Whether a proxy is configured (see [`spec_proxy_enabled`]).
    pub fn is_enabled(&self) -> (r: bool)
        ensures
            r == spec_proxy_enabled(self@),
    {
        self.address.is_some() || self.builtin_test_server
    }
}

impl Default for ProxyConfig {
    fn default() -> (r: Self)
        ensures
            r@ == (ProxyConfigView { address: None, builtin_test_server: false }),
    {
        ProxyConfig { address: None, builtin_test_server: false }
    }
}

/// Clipboard access level.
#[derive(Clone, Copy, Debug, PartialEq, Eq, Structural)]
pub enum ClipboardPolicy {
    /// No clipboard access.
    Denied,
    Read,
    Write,
    All,
}

impl Default for ClipboardPolicy {
    fn default() -> (r: Self)
        ensures
            r == ClipboardPolicy::Denied,
    {
        ClipboardPolicy::Denied
    }
}

/// Cross-platform UI policy (`ui`). Default-deny: UI disabled, no clipboard,
/// no input injection.
#[derive(Clone, Copy, Debug, PartialEq, Eq, Structural)]
pub struct UiPolicy {
    pub disable: bool,
    pub clipboard: ClipboardPolicy,
    pub injection: bool,
}

impl Default for UiPolicy {
    fn default() -> (r: Self)
        ensures
            r == (UiPolicy { disable: true, clipboard: ClipboardPolicy::Denied, injection: false }),
    {
        UiPolicy { disable: true, clipboard: ClipboardPolicy::Denied, injection: false }
    }
}

/// UI configuration of the BaseContainer implementation (`processContainer.ui`).
#[derive(Clone, Debug)]
pub struct BaseProcessUiConfig {
    pub isolation: String,
    pub desktop_system_control: bool,
    pub system_settings: String,
    pub ime: bool,
}

/// What a [`BaseProcessUiConfig`] holds, as plain values.
pub struct BaseProcessUiConfigView {
    pub isolation: Seq<char>,
    pub desktop_system_control: bool,
    pub system_settings: Seq<char>,
    pub ime: bool,
}

impl View for BaseProcessUiConfig {
    type V = BaseProcessUiConfigView;

    open spec fn view(&self) -> BaseProcessUiConfigView {
        BaseProcessUiConfigView {
            isolation: self.isolation@,
            desktop_system_control: self.desktop_system_control,
            system_settings: self.system_settings@,
            ime: self.ime,
        }
    }
}

pub open spec fn default_base_ui() -> BaseProcessUiConfigView {
    BaseProcessUiConfigView {
        isolation: "container"@,
        desktop_system_control: false,
        system_settings: "none"@,
        ime: false,
    }
}

impl Default for BaseProcessUiConfig {
    fn default() -> (r: Self)
        ensures
            r@ == default_base_ui(),
    {
        BaseProcessUiConfig {
            isolation: to_owned_string("container"),
            desktop_system_control: false,
            system_settings: to_owned_string("none"),
            ime: false,
        }
    }
}

/// Operator consent for host-impacting fallbacks.
#[derive(Clone, Copy, Debug, PartialEq, Eq, Structural)]
pub struct FallbackPolicy {
    /// Allow DACL changes on policy paths when no other primitive exists.
    pub allow_dacl_mutation: bool,
}

impl Default for FallbackPolicy {
    fn default() -> (r: Self)
        ensures
            r.allow_dacl_mutation,
    {
        FallbackPolicy { allow_dacl_mutation: true }
    }
}

/// Filesystem, network, UI and capability policy of a request.
#[derive(Clone, Debug)]
pub struct ContainerPolicy {
    pub least_privilege_mode: bool,
    pub capabilities: Vec<String>,
    pub readwrite_paths: Vec<String>,
    pub readonly_paths: Vec<String>,
    pub denied_paths: Vec<String>,
    pub fallback: FallbackPolicy,
    pub default_network_policy: NetworkPolicy,
    pub network_enforcement_mode: NetworkEnforcementMode,
    /// Whether the process may listen on local addresses.
    pub allow_local_network: bool,
    pub allowed_hosts: Vec<String>,
    pub blocked_hosts: Vec<String>,
    pub network_proxy: ProxyConfig,
    pub ui: UiPolicy,
    pub base_process_ui: BaseProcessUiConfig,
}

/// What a [`ContainerPolicy`] holds, as plain values.
pub struct ContainerPolicyView {
    pub least_privilege_mode: bool,
    pub capabilities: Seq<Seq<char>>,
    pub readwrite_paths: Seq<Seq<char>>,
    pub readonly_paths: Seq<Seq<char>>,
    pub denied_paths: Seq<Seq<char>>,
    pub fallback: FallbackPolicy,
    pub default_network_policy: NetworkPolicy,
    pub network_enforcement_mode: NetworkEnforcementMode,
    pub allow_local_network: bool,
    pub allowed_hosts: Seq<Seq<char>>,
    pub blocked_hosts: Seq<Seq<char>>,
    pub network_proxy: ProxyConfigView,
    pub ui: UiPolicy,
    pub base_process_ui: BaseProcessUiConfigView,
}

impl View for ContainerPolicy {
    type V = ContainerPolicyView;

    open spec fn view(&self) -> ContainerPolicyView {
        ContainerPolicyView {
            least_privilege_mode: self.least_privilege_mode,
            capabilities: strings_view(self.capabilities@),
            readwrite_paths: strings_view(self.readwrite_paths@),
            readonly_paths: strings_view(self.readonly_paths@),
            denied_paths: strings_view(self.denied_paths@),
            fallback: self.fallback,
            default_network_policy: self.default_network_policy,
            network_enforcement_mode: self.network_enforcement_mode,
            allow_local_network: self.allow_local_network,
            allowed_hosts: strings_view(self.allowed_hosts@),
            blocked_hosts: strings_view(self.blocked_hosts@),
            network_proxy: self.network_proxy@,
            ui: self.ui,
            base_process_ui: self.base_process_ui@,
        }
    }
}

pub open spec fn default_policy() -> ContainerPolicyView {
    ContainerPolicyView {
        least_privilege_mode: false,
        capabilities: Seq::empty(),
        readwrite_paths: Seq::empty(),
        readonly_paths: Seq::empty(),
        denied_paths: Seq::empty(),
        fallback: FallbackPolicy { allow_dacl_mutation: true },
        default_network_policy: NetworkPolicy::Block,
        network_enforcement_mode: NetworkEnforcementMode::Capabilities,
        allow_local_network: false,
        allowed_hosts: Seq::empty(),
        blocked_hosts: Seq::empty(),
        network_proxy: ProxyConfigView { address: None, builtin_test_server: false },
        ui: UiPolicy { disable: true, clipboard: ClipboardPolicy::Denied, injection: false },
        base_process_ui: default_base_ui(),
    }
}

impl Default for ContainerPolicy {
    fn default() -> (r: Self)
        ensures
            r@ == default_policy(),
    {
        let r = ContainerPolicy {
            least_privilege_mode: false,
            capabilities: Vec::new(),
            readwrite_paths: Vec::new(),
            readonly_paths: Vec::new(),
            denied_paths: Vec::new(),
            fallback: FallbackPolicy::default(),
            default_network_policy: NetworkPolicy::default(),
            network_enforcement_mode: NetworkEnforcementMode::default(),
            allow_local_network: false,
            allowed_hosts: Vec::new(),
            blocked_hosts: Vec::new(),
            network_proxy: ProxyConfig::default(),
            ui: UiPolicy::default(),
            base_process_ui: BaseProcessUiConfig::default(),
        };
        assert(strings_view(Seq::<String>::empty()) =~= Seq::empty());
        assert(r@ =~= default_policy());
        r
    }
}

/// Host/container port forward of the WSLC backend.
#[derive(Clone, Debug)]
pub struct PortMapping {
    pub windows_port: u16,
    pub container_port: u16,
    /// `"tcp"` or `"udp"`.
    pub protocol: String,
}

/// What a [`PortMapping`] holds, as plain values.
pub struct PortMappingView {
    pub windows_port: u16,
    pub container_port: u16,
    pub protocol: Seq<char>,
}

impl View for PortMapping {
    type V = PortMappingView;

    open spec fn view(&self) -> PortMappingView {
        PortMappingView { windows_port: self.windows_port, container_port: self.container_port, protocol: self.protocol@ }
    }
}

impl Default for PortMapping {
    fn default() -> (r: Self)
        ensures
            r@ == (PortMappingView { windows_port: 0, container_port: 0, protocol: Seq::empty() }),
    {
        PortMapping { windows_port: 0, container_port: 0, protocol: String::new() }
    }
}

pub open spec fn mappings_view(v: Seq<PortMapping>) -> Seq<PortMappingView> {
    v.map_values(|m: PortMapping| m@)
}

/// Configuration of the WSL Container backend.
#[derive(Clone, Debug)]
pub struct WslcConfig {
    pub target_os: String,
    pub image: String,
    pub image_tar_path: Option<String>,
    pub cpu_count: Option<u32>,
    pub memory_mb: Option<u64>,
    pub gpu: bool,
    pub storage_path: Option<String>,
    pub port_mappings: Vec<PortMapping>,
}

/// What a [`WslcConfig`] holds, as plain values.
pub struct WslcConfigView {
    pub target_os: Seq<char>,
    pub image: Seq<char>,
    pub image_tar_path: Option<Seq<char>>,
    pub cpu_count: Option<u32>,
    pub memory_mb: Option<u64>,
    pub gpu: bool,
    pub storage_path: Option<Seq<char>>,
    pub port_mappings: Seq<PortMappingView>,
}

impl View for WslcConfig {
    type V = WslcConfigView;

    open spec fn view(&self) -> WslcConfigView {
        WslcConfigView {
            target_os: self.target_os@,
            image: self.image@,
            image_tar_path: opt_view(self.image_tar_path),
            cpu_count: self.cpu_count,
            memory_mb: self.memory_mb,
            gpu: self.gpu,
            storage_path: opt_view(self.storage_path),
            port_mappings: mappings_view(self.port_mappings@),
        }
    }
}

pub open spec fn default_wslc() -> WslcConfigView {
    WslcConfigView {
        target_os: "linux"@,
        image: "alpine:latest"@,
        image_tar_path: None,
        cpu_count: None,
        memory_mb: None,
        gpu: false,
        storage_path: None,
        port_mappings: Seq::empty(),
    }
}

impl Default for WslcConfig {
    fn default() -> (r: Self)
        ensures
            r@ == default_wslc(),
    {
        let r = WslcConfig {
            target_os: to_owned_string("linux"),
            image: to_owned_string("alpine:latest"),
            image_tar_path: None,
            cpu_count: None,
            memory_mb: None,
            gpu: false,
            storage_path: None,
            port_mappings: Vec::new(),
        };
        assert(mappings_view(r.port_mappings@) =~= Seq::empty());
        r
    }
}

/// Container lifecycle settings shared across backends.
#[derive(Clone, Copy, Debug, PartialEq, Eq, Structural)]
pub struct LifecycleConfig {
    /// Destroy the container after execution (default true).
    pub destroy_on_exit: bool,
    /// Retain policies after execution (default false).
    pub preserve_policy: bool,
}

impl Default for LifecycleConfig {
    fn default() -> (r: Self)
        ensures
            r == (LifecycleConfig { destroy_on_exit: true, preserve_policy: false }),
    {
        LifecycleConfig { destroy_on_exit: true, preserve_policy: false }
    }
}

/// Placeholder experimental feature.
#[derive(Clone, Debug)]
pub struct TestFeatureConfig {
    pub message: String,
}

impl Default for TestFeatureConfig {
    fn default() -> (r: Self)
        ensures
            r.message@ == Seq::<char>::empty(),
    {
        TestFeatureConfig { message: String::new() }
    }
}

impl TestFeatureConfig {
    /// The feature with the given message, or an empty one.
    pub fn from_raw(message: Option<String>) -> (r: Self)
        ensures
            r.message@ == (match message {
                Some(m) => m@,
                None => Seq::empty(),
            }),
    {
        match message {
            Some(m) => TestFeatureConfig { message: m },
            None => TestFeatureConfig { message: String::new() },
        }
    }
}

/// Telemetry configuration (`experimental.telemetry`).
#[derive(Clone, Copy, Debug, PartialEq, Eq, Structural, Default)]
pub struct TelemetryConfig {
    /// `Some(true)` forces on, `Some(false)` forces off, `None` is the default (off).
    pub enabled: Option<bool>,
}

/// All experimental feature configurations.
#[derive(Clone)]
pub struct ExperimentalConfig {
    pub test: Option<TestFeatureConfig>,
    pub windows_sandbox: Option<WindowsSandboxConfig>,
    pub wslc: Option<WslcConfig>,
    pub isolation_session: Option<IsolationSessionConfig>,
    pub seatbelt: Option<SeatbeltConfig>,
    pub telemetry: Option<TelemetryConfig>,
}

/// What a [`ExperimentalConfig`] holds, as plain values.
pub struct ExperimentalConfigView {
    pub test: Option<Seq<char>>,
    pub windows_sandbox: Option<WindowsSandboxConfigView>,
    pub wslc: Option<WslcConfigView>,
    pub isolation_session: Option<IsolationSessionConfigView>,
    pub seatbelt: Option<SeatbeltConfigView>,
    pub telemetry: Option<TelemetryConfig>,
}

impl View for ExperimentalConfig {
    type V = ExperimentalConfigView;

    open spec fn view(&self) -> ExperimentalConfigView {
        ExperimentalConfigView {
            test: match self.test { Some(t) => Some(t.message@), None => None },
            windows_sandbox: match self.windows_sandbox { Some(c) => Some(c@), None => None },
            wslc: match self.wslc { Some(c) => Some(c@), None => None },
            isolation_session: match self.isolation_session { Some(c) => Some(c@), None => None },
            seatbelt: match self.seatbelt { Some(c) => Some(c@), None => None },
            telemetry: self.telemetry,
        }
    }
}

pub open spec fn no_experimental() -> ExperimentalConfigView {
    ExperimentalConfigView {
        test: None,
        windows_sandbox: None,
        wslc: None,
        isolation_session: None,
        seatbelt: None,
        telemetry: None,
    }
}

impl Default for ExperimentalConfig {
    fn default() -> (r: Self)
        ensures
            r@ == no_experimental(),
    {
        ExperimentalConfig {
            test: None,
            windows_sandbox: None,
            wslc: None,
            isolation_session: None,
            seatbelt: None,
            telemetry: None,
        }
    }
}

/// A one-shot execution request.
#[derive(Clone)]
pub struct ExecutionRequest {
    /// Schema version of the config format.
    pub schema_version: String,
    /// Externally assigned container identifier.
    pub container_id: String,
    /// Target platform: "linux" or "windows".
    pub platform: String,
    /// Environment variables as "KEY=VALUE" strings.
    pub env: Vec<String>,
    pub script_code: String,
    pub working_directory: String,
    pub script_timeout: u32,
    pub containment: ContainmentBackend,
    pub lifecycle: LifecycleConfig,
    pub policy: ContainerPolicy,
    pub lxc_config: LxcConfig,
    /// Whether the `--experimental` flag was passed.
    pub experimental_enabled: bool,
    pub experimental: ExperimentalConfig,
    /// Validate and set up, but do not run the process.
    pub dry_run: bool,
}

/// What a [`ExecutionRequest`] holds, as plain values.
pub struct ExecutionRequestView {
    pub schema_version: Seq<char>,
    pub container_id: Seq<char>,
    pub platform: Seq<char>,
    pub env: Seq<Seq<char>>,
    pub script_code: Seq<char>,
    pub working_directory: Seq<char>,
    pub script_timeout: u32,
    pub containment: ContainmentBackend,
    pub lifecycle: LifecycleConfig,
    pub policy: ContainerPolicyView,
    pub lxc_config: LxcConfigView,
    pub experimental_enabled: bool,
    pub experimental: ExperimentalConfigView,
    pub dry_run: bool,
}

impl View for ExecutionRequest {
    type V = ExecutionRequestView;

    open spec fn view(&self) -> ExecutionRequestView {
        ExecutionRequestView {
            schema_version: self.schema_version@,
            container_id: self.container_id@,
            platform: self.platform@,
            env: strings_view(self.env@),
            script_code: self.script_code@,
            working_directory: self.working_directory@,
            script_timeout: self.script_timeout,
            containment: self.containment,
            lifecycle: self.lifecycle,
            policy: self.policy@,
            lxc_config: self.lxc_config@,
            experimental_enabled: self.experimental_enabled,
            experimental: self.experimental@,
            dry_run: self.dry_run,
        }
    }
}

pub open spec fn default_request() -> ExecutionRequestView {
    ExecutionRequestView {
        schema_version: Seq::empty(),
        container_id: Seq::empty(),
        platform: "windows"@,
        env: Seq::empty(),
        script_code: Seq::empty(),
        working_directory: Seq::empty(),
        script_timeout: 0,
        containment: ContainmentBackend::ProcessContainer,
        lifecycle: LifecycleConfig { destroy_on_exit: true, preserve_policy: false },
        policy: default_policy(),
        lxc_config: LxcConfigView { distribution: Seq::empty(), release: Seq::empty() },
        experimental_enabled: false,
        experimental: no_experimental(),
        dry_run: false,
    }
}

impl Default for ExecutionRequest {
    fn default() -> (r: Self)
        ensures
            r@ == default_request(),
    {
        let r = ExecutionRequest {
            schema_version: String::new(),
            container_id: String::new(),
            platform: to_owned_string("windows"),
            env: Vec::new(),
            script_code: String::new(),
            working_directory: String::new(),
            script_timeout: 0,
            containment: ContainmentBackend::default(),
            lifecycle: LifecycleConfig::default(),
            policy: ContainerPolicy::default(),
            lxc_config: LxcConfig::default(),
            experimental_enabled: false,
            experimental: ExperimentalConfig::default(),
            dry_run: false,
        };
        assert(strings_view(r.env@) =~= Seq::empty());
        assert(r@ =~= default_request());
        r
    }
}

/// The phase at which a run failed.
#[derive(Clone, Copy, Debug, PartialEq, Eq, Structural)]
pub enum FailurePhase {
    /// No failure, or not evaluated yet.
    NoFailure,
    /// The process could not be created.
    LaunchFailed,
    /// The process was created and exited with a non-zero code.
    ProcessExited,
}

impl Default for FailurePhase {
    fn default() -> (r: Self)
        ensures
            r == FailurePhase::NoFailure,
    {
        FailurePhase::NoFailure
    }
}

/// The outcome of a run.
#[derive(Clone, Debug)]
pub struct ScriptResponse {
    pub exit_code: i32,
    pub standard_out: String,
    pub standard_err: String,
    pub error_message: String,
    /// Raw system/API error detail for diagnostics.
    pub extended_error: String,
    pub failure_phase: FailurePhase,
}

/// What a [`ScriptResponse`] holds, as plain values.
pub struct ScriptResponseView {
    pub exit_code: i32,
    pub standard_out: Seq<char>,
    pub standard_err: Seq<char>,
    pub error_message: Seq<char>,
    pub extended_error: Seq<char>,
    pub failure_phase: FailurePhase,
}

impl View for ScriptResponse {
    type V = ScriptResponseView;

    open spec fn view(&self) -> ScriptResponseView {
        ScriptResponseView {
            exit_code: self.exit_code,
            standard_out: self.standard_out@,
            standard_err: self.standard_err@,
            error_message: self.error_message@,
            extended_error: self.extended_error@,
            failure_phase: self.failure_phase,
        }
    }
}

impl Default for ScriptResponse {
    fn default() -> (r: Self)
        ensures
            r@ == (ScriptResponseView {
                exit_code: -1i32,
                standard_out: Seq::empty(),
                standard_err: Seq::empty(),
                error_message: Seq::empty(),
                extended_error: Seq::empty(),
                failure_phase: FailurePhase::NoFailure,
            }),
    {
        ScriptResponse {
            exit_code: -1,
            standard_out: String::new(),
            standard_err: String::new(),
            error_message: String::new(),
            extended_error: String::new(),
            failure_phase: FailurePhase::NoFailure,
        }
    }
}

impl ScriptResponse {
    /// An error response: exit code -1, the message as both the error text
    /// and the standard error output.
    pub fn error(msg: &str) -> (r: Self)
        ensures
            r@ == (ScriptResponseView {
                exit_code: -1i32,
                standard_out: Seq::empty(),
                standard_err: msg@,
                error_message: msg@,
                extended_error: Seq::empty(),
                failure_phase: FailurePhase::NoFailure,
            }),
    {
        ScriptResponse {
            exit_code: -1,
            standard_out: String::new(),
            standard_err: to_owned_string(msg),
            error_message: to_owned_string(msg),
            extended_error: String::new(),
            failure_phase: FailurePhase::NoFailure,
        }
    }
}

} // verus!
