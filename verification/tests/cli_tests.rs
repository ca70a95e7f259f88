use rustpod::cli::{
    plan_command, pull_banner, Action, Commands, ContainerCommands, ImageCommands, NetworkCommands,
    PodCommands, SystemCommands, Unsupported, VolumeCommands,
};

fn strings(v: &[&str]) -> Vec<String> {
    v.iter().map(|s| s.to_string()).collect()
}

#[test]
fn top_level_pull_and_run_announce_and_exit_on_error() {
    assert_eq!(
        plan_command(Commands::Pull { image: "alpine".to_string(), tag: "latest".to_string() }),
        Action::PullImage { image: "alpine".to_string(), tag: "latest".to_string(), announce: true, exit_on_error: true }
    );
    assert_eq!(
        plan_command(Commands::Run {
            interactive: true,
            tty: true,
            rm: true,
            image: "alpine".to_string(),
            cmd: strings(&["sh", "-c", "true"]),
        }),
        Action::RunContainer { image: "alpine".to_string(), cmd: strings(&["sh", "-c", "true"]), exit_on_error: true }
    );
}

#[test]
fn subcommand_pull_and_run_only_report_errors() {
    assert_eq!(
        plan_command(Commands::Image { cmd: ImageCommands::Pull { image: "a".to_string(), tag: "1".to_string() } }),
        Action::PullImage { image: "a".to_string(), tag: "1".to_string(), announce: false, exit_on_error: false }
    );
    assert_eq!(
        plan_command(Commands::Container {
            cmd: ContainerCommands::Run { interactive: false, tty: false, rm: false, image: "a".to_string(), cmd: vec![] },
        }),
        Action::RunContainer { image: "a".to_string(), cmd: vec![], exit_on_error: false }
    );
}

#[test]
fn aliases_map_to_the_same_actions() {
    assert_eq!(plan_command(Commands::Ps), Action::ListContainers);
    assert_eq!(plan_command(Commands::Container { cmd: ContainerCommands::Ls }), Action::ListContainers);
    assert_eq!(plan_command(Commands::Images), Action::ListImages);
    assert_eq!(plan_command(Commands::Image { cmd: ImageCommands::Ls }), Action::ListImages);
    assert_eq!(
        plan_command(Commands::Rm { containers: strings(&["a", "b"]) }),
        Action::RemoveContainers { containers: strings(&["a", "b"]) }
    );
    assert_eq!(
        plan_command(Commands::Container { cmd: ContainerCommands::Rm { containers: strings(&["c"]) } }),
        Action::RemoveContainers { containers: strings(&["c"]) }
    );
    assert_eq!(
        plan_command(Commands::Rmi { images: strings(&["x:1"]) }),
        Action::RemoveImages { images: strings(&["x:1"]) }
    );
    assert_eq!(
        plan_command(Commands::Image { cmd: ImageCommands::Rm { images: strings(&["y"]) } }),
        Action::RemoveImages { images: strings(&["y"]) }
    );
    assert_eq!(
        plan_command(Commands::Start { containers: strings(&["s"]) }),
        Action::StartContainers { containers: strings(&["s"]) }
    );
    assert_eq!(
        plan_command(Commands::Container { cmd: ContainerCommands::Stop { containers: strings(&["t"]) } }),
        Action::StopContainers { containers: strings(&["t"]) }
    );
    assert_eq!(
        plan_command(Commands::Exec { container: "c".to_string(), cmd: strings(&["ls"]) }),
        Action::ExecContainer { container: "c".to_string(), cmd: strings(&["ls"]) }
    );
    assert_eq!(
        plan_command(Commands::Container { cmd: ContainerCommands::Logs { container: "c".to_string() } }),
        Action::ContainerLogs { container: "c".to_string() }
    );
    assert_eq!(plan_command(Commands::Login { server: None }), Action::Login { server: None });
    assert_eq!(
        plan_command(Commands::Logout { server: Some("q".to_string()) }),
        Action::Logout { server: Some("q".to_string()) }
    );
}

#[test]
fn unimplemented_commands_are_reported() {
    assert_eq!(
        plan_command(Commands::Image { cmd: ImageCommands::Push { image: "a".to_string() } }),
        Action::NotImplemented { shown: Unsupported::ImageCommand }
    );
    assert_eq!(
        plan_command(Commands::Container { cmd: ContainerCommands::Top { container: "a".to_string() } }),
        Action::NotImplemented { shown: Unsupported::ContainerCommand }
    );
    assert_eq!(
        plan_command(Commands::Network { cmd: NetworkCommands::Ls }),
        Action::NotImplemented { shown: Unsupported::Command }
    );
    assert_eq!(
        plan_command(Commands::Volume { cmd: VolumeCommands::Create { name: "v".to_string() } }),
        Action::NotImplemented { shown: Unsupported::Command }
    );
    assert_eq!(
        plan_command(Commands::Pod { cmd: PodCommands::Ls }),
        Action::NotImplemented { shown: Unsupported::Command }
    );
    assert_eq!(
        plan_command(Commands::System { cmd: SystemCommands::Prune }),
        Action::NotImplemented { shown: Unsupported::Command }
    );
}

#[test]
fn pull_banner_names_image_and_tag() {
    assert_eq!(pull_banner("hello-world", "latest"), "Pulling image hello-world:latest");
}
