//! The command line of the engine, and what each command asks the engine to
//! do.

use vstd::prelude::*;
use vstd::string::*;

verus! {

/// The parsed command line.
#[derive(Debug, PartialEq)]
pub struct Cli {
    pub command: Commands,
}

/// The top-level commands.
#[allow(inconsistent_fields)]
#[derive(Debug, PartialEq)]
pub enum Commands {
    /// Pull an image from a registry (`tag` defaults to `latest`).
    Pull { image: String, tag: String },
    /// Run a command in a new container.
    Run { interactive: bool, tty: bool, rm: bool, image: String, cmd: Vec<String> },
    /// List containers.
    Ps,
    /// List images in local storage.
    Images,
    /// Remove containers.
    Rm { containers: Vec<String> },
    /// Remove images.
    Rmi { images: Vec<String> },
    /// Log in to a registry.
    Login { server: Option<String> },
    /// Log out of a registry.
    Logout { server: Option<String> },
    /// Execute a command in a running container.
    Exec { container: String, cmd: Vec<String> },
    /// Fetch the logs of a container.
    Logs { container: String },
    /// Start containers.
    Start { containers: Vec<String> },
    /// Stop containers.
    Stop { containers: Vec<String> },
    /// Manage containers.
    Container { cmd: ContainerCommands },
    /// Manage images.
    Image { cmd: ImageCommands },
    /// Manage networks.
    Network { cmd: NetworkCommands },
    /// Manage volumes.
    Volume { cmd: VolumeCommands },
    /// Manage pods.
    Pod { cmd: PodCommands },
    /// Manage the system.
    System { cmd: SystemCommands },
}

/// `container` subcommands.
#[derive(Debug, PartialEq)]
pub enum ContainerCommands {
    Ls,
    Create { image: String },
    Run { interactive: bool, tty: bool, rm: bool, image: String, cmd: Vec<String> },
    Stop { containers: Vec<String> },
    Start { containers: Vec<String> },
    Rm { containers: Vec<String> },
    Top { container: String },
    Logs { container: String },
    Exec { container: String, cmd: Vec<String> },
    Inspect { container: String },
}

/// `image` subcommands.
#[derive(Debug, PartialEq)]
pub enum ImageCommands {
    Ls,
    Pull { image: String, tag: String },
    Push { image: String },
    Rm { images: Vec<String> },
    Build { context: String },
    Inspect { image: String },
    History { image: String },
}

/// `network` subcommands.
#[derive(Debug, PartialEq)]
pub enum NetworkCommands {
    Ls,
    Create { name: String },
    Rm { networks: Vec<String> },
    Inspect { network: String },
}

/// `volume` subcommands.
#[derive(Debug, PartialEq)]
pub enum VolumeCommands {
    Ls,
    Create { name: String },
    Rm { volumes: Vec<String> },
    Inspect { volume: String },
}

/// `pod` subcommands.
#[derive(Debug, PartialEq)]
pub enum PodCommands {
    Ls,
    Create { name: String },
    Rm { pods: Vec<String> },
}

/// `system` subcommands.
#[derive(Debug, PartialEq)]
pub enum SystemCommands {
    Info,
    Prune,
}

/// Which parsed value an unsupported command is reported with.
#[derive(Debug, PartialEq)]
pub enum Unsupported {
    /// The whole top-level command.
    Command,
    /// The `image` subcommand.
    ImageCommand,
    /// The `container` subcommand.
    ContainerCommand,
}

/// What the engine does for a command. `announce` prints the pull banner
/// first; `exit_on_error` ends the process with status 1 on failure, where
/// otherwise the error is only printed.
#[derive(Debug, PartialEq)]
pub enum Action {
    PullImage { image: String, tag: String, announce: bool, exit_on_error: bool },
    RunContainer { image: String, cmd: Vec<String>, exit_on_error: bool },
    ListContainers,
    ListImages,
    RemoveContainers { containers: Vec<String> },
    RemoveImages { images: Vec<String> },
    Login { server: Option<String> },
    Logout { server: Option<String> },
    ExecContainer { container: String, cmd: Vec<String> },
    ContainerLogs { container: String },
    StartContainers { containers: Vec<String> },
    StopContainers { containers: Vec<String> },
    NotImplemented { shown: Unsupported },
}

/// The action of each command. Only the top-level `pull` and `run`
/// announce and end the process on error; `image pull` and `container run`
/// report errors only; the subcommands without an implementation, and the
/// `network`, `volume`, `pod` and `system` groups, are reported as not
/// implemented.
pub open spec fn action_of(command: Commands) -> Action {
    match command {
        Commands::Pull { image, tag } => Action::PullImage { image, tag, announce: true, exit_on_error: true },
        Commands::Run { image, cmd, .. } => Action::RunContainer { image, cmd, exit_on_error: true },
        Commands::Ps => Action::ListContainers,
        Commands::Images => Action::ListImages,
        Commands::Rm { containers } => Action::RemoveContainers { containers },
        Commands::Rmi { images } => Action::RemoveImages { images },
        Commands::Login { server } => Action::Login { server },
        Commands::Logout { server } => Action::Logout { server },
        Commands::Exec { container, cmd } => Action::ExecContainer { container, cmd },
        Commands::Logs { container } => Action::ContainerLogs { container },
        Commands::Start { containers } => Action::StartContainers { containers },
        Commands::Stop { containers } => Action::StopContainers { containers },
        Commands::Image { cmd } => match cmd {
            ImageCommands::Pull { image, tag } => Action::PullImage { image, tag, announce: false, exit_on_error: false },
            ImageCommands::Ls => Action::ListImages,
            ImageCommands::Rm { images } => Action::RemoveImages { images },
            _ => Action::NotImplemented { shown: Unsupported::ImageCommand },
        },
        Commands::Container { cmd } => match cmd {
            ContainerCommands::Run { image, cmd, .. } => Action::RunContainer { image, cmd, exit_on_error: false },
            ContainerCommands::Ls => Action::ListContainers,
            ContainerCommands::Rm { containers } => Action::RemoveContainers { containers },
            ContainerCommands::Start { containers } => Action::StartContainers { containers },
            ContainerCommands::Stop { containers } => Action::StopContainers { containers },
            ContainerCommands::Exec { container, cmd } => Action::ExecContainer { container, cmd },
            ContainerCommands::Logs { container } => Action::ContainerLogs { container },
            _ => Action::NotImplemented { shown: Unsupported::ContainerCommand },
        },
        _ => Action::NotImplemented { shown: Unsupported::Command },
    }
}

/// Decides what to do for a parsed command.
pub fn plan_command(command: Commands) -> (a: Action)
    ensures
        a == action_of(command),
{
    match command {
        Commands::Pull { image, tag } => Action::PullImage { image, tag, announce: true, exit_on_error: true },
        Commands::Run { image, cmd, .. } => Action::RunContainer { image, cmd, exit_on_error: true },
        Commands::Ps => Action::ListContainers,
        Commands::Images => Action::ListImages,
        Commands::Rm { containers } => Action::RemoveContainers { containers },
        Commands::Rmi { images } => Action::RemoveImages { images },
        Commands::Login { server } => Action::Login { server },
        Commands::Logout { server } => Action::Logout { server },
        Commands::Exec { container, cmd } => Action::ExecContainer { container, cmd },
        Commands::Logs { container } => Action::ContainerLogs { container },
        Commands::Start { containers } => Action::StartContainers { containers },
        Commands::Stop { containers } => Action::StopContainers { containers },
        Commands::Image { cmd } => match cmd {
            ImageCommands::Pull { image, tag } => Action::PullImage { image, tag, announce: false, exit_on_error: false },
            ImageCommands::Ls => Action::ListImages,
            ImageCommands::Rm { images } => Action::RemoveImages { images },
            _ => Action::NotImplemented { shown: Unsupported::ImageCommand },
        },
        Commands::Container { cmd } => match cmd {
            ContainerCommands::Run { image, cmd, .. } => Action::RunContainer { image, cmd, exit_on_error: false },
            ContainerCommands::Ls => Action::ListContainers,
            ContainerCommands::Rm { containers } => Action::RemoveContainers { containers },
            ContainerCommands::Start { containers } => Action::StartContainers { containers },
            ContainerCommands::Stop { containers } => Action::StopContainers { containers },
            ContainerCommands::Exec { container, cmd } => Action::ExecContainer { container, cmd },
            ContainerCommands::Logs { container } => Action::ContainerLogs { container },
            _ => Action::NotImplemented { shown: Unsupported::ContainerCommand },
        },
        _ => Action::NotImplemented { shown: Unsupported::Command },
    }
}

/// The banner printed before a top-level pull.
pub fn pull_banner(image: &str, tag: &str) -> (r: String)
    ensures
        r@ == "Pulling image "@ + image@ + ":"@ + tag@,
{
    let mut r = String::from_str("Pulling image ");
    r.append(image);
    r.append(":");
    r.append(tag);
    r
}

/// Each command does what its name says, on exactly the arguments given:
/// `stop` stops, `start` starts, `rm` removes the named containers, `rmi`
/// removes the named images, `ps` and `images` list, `exec` and `logs` act
/// on the named container, and `pull` and `run` pull and run the named
/// image. The top-level shortcuts do what the `container` and `image`
/// subcommands of the same name do, except that the top-level `pull` and
/// `run` announce themselves and end the process on error.
pub proof fn law_commands_do_what_they_name(
    containers: Vec<String>,
    images: Vec<String>,
    container: String,
    cmd: Vec<String>,
    image: String,
    tag: String,
    interactive: bool,
    tty: bool,
    rm: bool,
)
    ensures
        action_of(Commands::Stop { containers }) == (Action::StopContainers { containers }),
        action_of(Commands::Start { containers }) == (Action::StartContainers { containers }),
        action_of(Commands::Rm { containers }) == (Action::RemoveContainers { containers }),
        action_of(Commands::Rmi { images }) == (Action::RemoveImages { images }),
        action_of(Commands::Ps) == Action::ListContainers,
        action_of(Commands::Images) == Action::ListImages,
        action_of(Commands::Exec { container, cmd }) == (Action::ExecContainer { container, cmd }),
        action_of(Commands::Logs { container }) == (Action::ContainerLogs { container }),
        action_of(Commands::Pull { image, tag }) == (Action::PullImage {
            image,
            tag,
            announce: true,
            exit_on_error: true,
        }),
        action_of(Commands::Run { interactive, tty, rm, image, cmd }) == (Action::RunContainer {
            image,
            cmd,
            exit_on_error: true,
        }),
        action_of(Commands::Container { cmd: ContainerCommands::Stop { containers } }) == action_of(
            Commands::Stop { containers },
        ),
        action_of(Commands::Container { cmd: ContainerCommands::Start { containers } }) == action_of(
            Commands::Start { containers },
        ),
        action_of(Commands::Container { cmd: ContainerCommands::Rm { containers } }) == action_of(
            Commands::Rm { containers },
        ),
        action_of(Commands::Container { cmd: ContainerCommands::Ls }) == action_of(Commands::Ps),
        action_of(Commands::Container { cmd: ContainerCommands::Exec { container, cmd } }) == action_of(
            Commands::Exec { container, cmd },
        ),
        action_of(Commands::Container { cmd: ContainerCommands::Logs { container } }) == action_of(
            Commands::Logs { container },
        ),
        action_of(Commands::Image { cmd: ImageCommands::Ls }) == action_of(Commands::Images),
        action_of(Commands::Image { cmd: ImageCommands::Rm { images } }) == action_of(
            Commands::Rmi { images },
        ),
        action_of(Commands::Image { cmd: ImageCommands::Pull { image, tag } }) == (Action::PullImage {
            image,
            tag,
            announce: false,
            exit_on_error: false,
        }),
        action_of(Commands::Container { cmd: ContainerCommands::Run { interactive, tty, rm, image, cmd } })
            == (Action::RunContainer { image, cmd, exit_on_error: false }),
{
}

} // verus!
