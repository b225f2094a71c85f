//! The files a relay deployment consists of: the service unit that starts
//! the relay with its settings, the configuration record, and the script
//! that installs both.

use vstd::prelude::*;

verus! {

/// The settings of one deployment.
#[derive(Debug, Clone)]
pub struct DeploymentConfig {
    /// The server's host name.
    pub host: String,
    /// The account the deployment logs in as.
    pub user: String,
    /// The path of the private key used to log in.
    pub ssh_key: String,
    /// The port the relay listens on.
    pub port: u16,
    /// Clients the relay holds at most.
    pub max_clients: u32,
    /// The longest frame the relay reads, in bytes.
    pub max_message_size: u32,
    /// The address the relay binds to.
    pub bind_address: String,
}

/// The service unit up to the port.
pub const SERVICE_HEAD: &'static str = "[Unit]\nDescription=Silence Relay Server\nAfter=network.target\nWants=network.target\n\n[Service]\nType=simple\nUser=relay\nGroup=relay\nWorkingDirectory=/opt/silence-relay\nExecStart=/opt/silence-relay/silence-relay --port ";

/// The service unit after the bind address.
pub const SERVICE_TAIL: &'static str = "\nRestart=always\nRestartSec=5\nEnvironment=RUST_LOG=info\nKillMode=mixed\nTimeoutStopSec=5\nPrivateTmp=yes\nNoNewPrivileges=yes\n\n# Security settings\nProtectSystem=strict\nProtectHome=yes\nProtectKernelTunables=yes\nProtectKernelModules=yes\nProtectControlGroups=yes\nRestrictRealtime=yes\nRestrictSUIDSGID=yes\nLockPersonality=yes\nMemoryDenyWriteExecute=yes\n\n[Install]\nWantedBy=multi-user.target\n";

/// The installation script.
pub const INSTALL_SCRIPT: &'static str = "#!/bin/bash\nset -euo pipefail\n\necho \"\u{1f527} Installing Silence Relay Server...\"\n\n# Create user for the service\nif ! id -u relay >/dev/null 2>&1; then\n    useradd --system --home /opt/silence-relay --shell /bin/false --comment \"Silence Relay Server\" relay\n    echo \"\u{2705} Created relay user\"\nelse\n    echo \"\u{2705} Relay user already exists\"\nfi\n\n# Create directories\nmkdir -p /opt/silence-relay\nchown relay:relay /opt/silence-relay\n\n# Install binary\ncp silence-relay /opt/silence-relay/\nchmod +x /opt/silence-relay/silence-relay\nchown relay:relay /opt/silence-relay/silence-relay\n\n# Install systemd service\ncp silence-relay.service /etc/systemd/system/\nsystemctl daemon-reload\nsystemctl enable silence-relay\n\n# Stop existing service if running\nsystemctl stop silence-relay 2>/dev/null || true\n\necho \"\u{2705} Installation complete\"\necho \"\"\necho \"\u{1f680} To start the service:\"\necho \"  systemctl start silence-relay\"\necho \"\"\necho \"\u{1f4ca} To check status:\"\necho \"  systemctl status silence-relay\"\necho \"\"\necho \"\u{1f4cb} To view logs:\"\necho \"  journalctl -u silence-relay -f\"\n";

/// The configuration record up to the host.
pub const CONFIG_HEAD: &'static str = "# Silence Relay Server Deployment Configuration\n[server]\nhost = \"";

/// The configuration record after the user.
pub const CONFIG_TAIL: &'static str = "\"\ntarget_directory = \"/opt/silence-relay\"\nservice_name = \"silence-relay\"\n\n[security]\ncreate_user = true\nenable_systemd_security = true\n";

/// The character of a decimal digit.
pub open spec fn digit_char(digit: nat) -> char {
    if digit == 0 {
        '0'
    } else if digit == 1 {
        '1'
    } else if digit == 2 {
        '2'
    } else if digit == 3 {
        '3'
    } else if digit == 4 {
        '4'
    } else if digit == 5 {
        '5'
    } else if digit == 6 {
        '6'
    } else if digit == 7 {
        '7'
    } else if digit == 8 {
        '8'
    } else {
        '9'
    }
}

/// A number in decimal notation, without leading zeros.
pub open spec fn decimal_text(n: nat) -> Seq<char>
    decreases n,
{
    if n < 10 {
        seq![digit_char(n)]
    } else {
        decimal_text(n / 10).push(digit_char(n % 10))
    }
}

/// The text of a service unit that starts the relay with these settings.
pub open spec fn systemd_service_text(
    port: u16,
    max_clients: u32,
    max_message_size: u32,
    bind_address: Seq<char>,
) -> Seq<char> {
    SERVICE_HEAD@ + decimal_text(port as nat) + " --max-clients "@ + decimal_text(max_clients as nat)
        + " --max-message-size "@ + decimal_text(max_message_size as nat) + " --bind-address "@
        + bind_address + SERVICE_TAIL@
}

/// The text of the configuration record of a deployment.
pub open spec fn config_file_text(
    host: Seq<char>,
    port: u16,
    max_clients: u32,
    max_message_size: u32,
    bind_address: Seq<char>,
    user: Seq<char>,
) -> Seq<char> {
    CONFIG_HEAD@ + host + "\"\nport = "@ + decimal_text(port as nat) + "\nmax_clients = "@ + decimal_text(
        max_clients as nat,
    ) + "\nmax_message_size = "@ + decimal_text(max_message_size as nat) + "\nbind_address = \""@ + bind_address
        + "\"\n\n[deployment]\nuser = \""@ + user + CONFIG_TAIL@
}

/// The text of one decimal digit.
fn digit(d: u64) -> (text: &'static str)
    requires
        d < 10,
    ensures
        text@ == seq![digit_char(d as nat)],
{
    proof {
        reveal_strlit("0");
        reveal_strlit("1");
        reveal_strlit("2");
        reveal_strlit("3");
        reveal_strlit("4");
        reveal_strlit("5");
        reveal_strlit("6");
        reveal_strlit("7");
        reveal_strlit("8");
        reveal_strlit("9");
    }
    let text = if d == 0 {
        "0"
    } else if d == 1 {
        "1"
    } else if d == 2 {
        "2"
    } else if d == 3 {
        "3"
    } else if d == 4 {
        "4"
    } else if d == 5 {
        "5"
    } else if d == 6 {
        "6"
    } else if d == 7 {
        "7"
    } else if d == 8 {
        "8"
    } else {
        "9"
    };
    assert(text@ =~= seq![digit_char(d as nat)]);
    text
}

/// Writes a number in decimal notation.
pub fn decimal(n: u64) -> (text: String)
    ensures
        text@ == decimal_text(n as nat),
    decreases n,
{
    if n < 10 {
        digit(n).to_owned()
    } else {
        let mut text = decimal(n / 10);
        text.append(digit(n % 10));
        assert(text@ =~= decimal_text((n / 10) as nat).push(digit_char((n % 10) as nat)));
        text
    }
}

/// Produces the files of a deployment from its settings.
pub struct Packager<'a> {
    config: &'a DeploymentConfig,
}

impl<'a> Packager<'a> {
    /// The settings the files are produced from.
    pub closed spec fn config(&self) -> DeploymentConfig {
        *self.config
    }

    /// A packager for the given settings.
    pub fn new(config: &'a DeploymentConfig) -> (packager: Self)
        ensures
            packager.config() == *config,
    {
        Packager { config }
    }

    /// The service unit: it starts the relay with the port, the client
    /// bound, the frame limit and the bind address of the settings.
    pub fn create_systemd_service(&self) -> (text: String)
        ensures
            text@ == systemd_service_text(
                self.config().port,
                self.config().max_clients,
                self.config().max_message_size,
                self.config().bind_address@,
            ),
    {
        let mut text = SERVICE_HEAD.to_owned();
        text.append(decimal(self.config.port as u64).as_str());
        text.append(" --max-clients ");
        text.append(decimal(self.config.max_clients as u64).as_str());
        text.append(" --max-message-size ");
        text.append(decimal(self.config.max_message_size as u64).as_str());
        text.append(" --bind-address ");
        text.append(self.config.bind_address.as_str());
        text.append(SERVICE_TAIL);
        text
    }

    /// The installation script; it is the same for every deployment.
    pub fn create_install_script(&self) -> (text: String)
        ensures
            text@ == INSTALL_SCRIPT@,
    {
        INSTALL_SCRIPT.to_owned()
    }

    /// The configuration record of the deployment.
    pub fn create_config_file(&self) -> (text: String)
        ensures
            text@ == config_file_text(
                self.config().host@,
                self.config().port,
                self.config().max_clients,
                self.config().max_message_size,
                self.config().bind_address@,
                self.config().user@,
            ),
    {
        let mut text = CONFIG_HEAD.to_owned();
        text.append(self.config.host.as_str());
        text.append("\"\nport = ");
        text.append(decimal(self.config.port as u64).as_str());
        text.append("\nmax_clients = ");
        text.append(decimal(self.config.max_clients as u64).as_str());
        text.append("\nmax_message_size = ");
        text.append(decimal(self.config.max_message_size as u64).as_str());
        text.append("\nbind_address = \"");
        text.append(self.config.bind_address.as_str());
        text.append("\"\n\n[deployment]\nuser = \"");
        text.append(self.config.user.as_str());
        text.append(CONFIG_TAIL);
        text
    }
}

/// Where the relay binary lies below the workspace root after a release
/// build.
pub const BINARY_PATH: &'static str = "relay-server/target/release/silence-relay";

/// A relative path adjoined to a root, with `/` between the two unless the
/// root is empty or ends in one.
pub open spec fn adjoined(root: Seq<char>, relative: Seq<char>) -> Seq<char> {
    if root.len() == 0 {
        relative
    } else if root.last() == '/' {
        root + relative
    } else {
        root + "/"@ + relative
    }
}

/// Knows where a build of the relay puts its binary.
pub struct Builder {
    workspace_root: String,
}

impl Builder {
    /// The root of the workspace the relay is built in.
    pub closed spec fn workspace_root(&self) -> Seq<char> {
        self.workspace_root@
    }

    /// A builder for the workspace at `workspace_root`.
    pub fn new(workspace_root: String) -> (builder: Self)
        ensures
            builder.workspace_root() == workspace_root@,
    {
        Builder { workspace_root }
    }

    /// The path of the relay binary: `BINARY_PATH` adjoined to the workspace
    /// root.
    pub fn get_binary_path(&self) -> (path: String)
        ensures
            path@ == adjoined(self.workspace_root(), BINARY_PATH@),
    {
        let root = self.workspace_root.as_str();
        let len = root.unicode_len();
        if len == 0 {
            BINARY_PATH.to_owned()
        } else if root.get_char(len - 1) == '/' {
            root.to_owned().concat(BINARY_PATH)
        } else {
            proof {
                reveal_strlit("/");
            }
            let mut path = root.to_owned();
            path.append("/");
            path.append(BINARY_PATH);
            path
        }
    }
}

} // verus!
