//! The command line as it is typed, through the argument parser.

use clap::{App, Arg, ArgMatches, ErrorKind, SubCommand};

use rustdoc_cli::artifact::ArtifactSet;
use rustdoc_cli::dispatch::{Action, DispatchState, Dispatcher, Event};
use rustdoc_cli::invocation::{
    resolve, Invocation, Matches, Subcommand, SubcommandMatches, BUILD, DEFAULT_MANIFEST_PATH,
    OPEN, TEST,
};
use rustdoc_cli::verbosity::Verbosity;

fn command_line<'a>(artifacts: &[&'a str]) -> App<'a, 'a> {
    App::new("rustdoc")
        .version("0.1.0")
        .arg(
            Arg::with_name("manifest-path")
                .long("manifest-path")
                .default_value(DEFAULT_MANIFEST_PATH)
                .help("The path to the Cargo manifest of the project you are documenting."),
        )
        .arg(
            Arg::with_name("quiet")
                .short("q")
                .long("quiet")
                .help("No output printed to stdout"),
        )
        .arg(
            Arg::with_name("verbose")
                .short("v")
                .long("verbose")
                .help("Use verbose output"),
        )
        .subcommand(
            SubCommand::with_name(BUILD)
                .arg(
                    Arg::with_name("artifacts")
                        .long("emit")
                        .use_delimiter(true)
                        .takes_value(true)
                        .possible_values(artifacts)
                        .help("Build artifacts to produce. Defaults to just the frontend."),
                )
                .arg(
                    Arg::with_name("open")
                        .short("o")
                        .long("open")
                        .help("Open the docs in a web browser after building."),
                ),
        )
        .subcommand(SubCommand::with_name(OPEN))
        .subcommand(SubCommand::with_name(TEST))
}

fn read(matches: &ArgMatches) -> Matches {
    Matches {
        manifest_path: matches.value_of("manifest-path").map(String::from),
        quiet: matches.is_present("quiet"),
        verbose: matches.is_present("verbose"),
        subcommand: match matches.subcommand() {
            (name, Some(below)) => Some(SubcommandMatches {
                name: name.to_string(),
                artifacts: below
                    .values_of("artifacts")
                    .map(|values| values.map(String::from).collect()),
                open: below.is_present("open"),
            }),
            (_, None) => None,
        },
    }
}

fn parse(line: &str) -> Result<Matches, ErrorKind> {
    let artifacts = ArtifactSet::all().names();
    command_line(&artifacts)
        .get_matches_from_safe(line.split_whitespace())
        .map(|matches| read(&matches))
        .map_err(|error| error.kind)
}

fn invocation(line: &str) -> Invocation {
    match parse(line) {
        Ok(matches) => resolve(matches),
        Err(kind) => panic!("{:?} is refused: {:?}", line, kind),
    }
}

/// The calls of a run in which every call succeeds.
fn calls(invocation: Invocation, output_exists: bool) -> Vec<Action> {
    let (mut dispatcher, mut action) = Dispatcher::start(invocation);
    let mut calls = Vec::new();
    loop {
        let event = match &action {
            Action::Finish(_) => {
                calls.push(action);
                return calls;
            }
            Action::ProbeOutput => Event::OutputExists(output_exists),
            _ => Event::Completed,
        };
        assert!(dispatcher.can_accept(&event));
        calls.push(action);
        action = dispatcher.step(event);
    }
}

#[test]
fn the_parser_takes_the_names_of_all_artifacts() {
    assert_eq!(ArtifactSet::all().names(), vec!["frontend", "json"]);
}

#[test]
fn no_arguments_run_the_default_build() {
    let invocation = invocation("rustdoc");
    assert_eq!(invocation.settings.manifest_path, "./Cargo.toml");
    assert_eq!(invocation.settings.verbosity, Verbosity::Normal);
    assert_eq!(invocation.command, Subcommand::Unspecified);
    let settings = invocation.settings.clone();
    let (dispatcher, _) = Dispatcher::start(invocation.clone());
    assert_eq!(dispatcher.state(), DispatchState::Default);
    assert_eq!(
        calls(invocation, true),
        vec![
            Action::Configure(settings),
            Action::Build(ArtifactSet::OnlyFrontend),
            Action::Finish(Ok(())),
        ]
    );
}

#[test]
fn build_with_json_and_open_builds_json_then_opens() {
    let invocation = invocation("rustdoc build --emit=json -o");
    assert_eq!(
        invocation.command,
        Subcommand::Build { artifacts: ArtifactSet::OnlyJson, open_after: true }
    );
    let settings = invocation.settings.clone();
    let run = calls(invocation, false);
    assert_eq!(
        run,
        vec![
            Action::Configure(settings),
            Action::Build(ArtifactSet::OnlyJson),
            Action::OpenDocs,
            Action::Finish(Ok(())),
        ]
    );
    match &run[1] {
        Action::Build(artifacts) => assert_eq!(artifacts.names(), vec!["json"]),
        other => panic!("{:?} is no build", other),
    }
}

#[test]
fn open_without_output_builds_the_default_then_opens() {
    let invocation = invocation("rustdoc open");
    assert_eq!(invocation.command, Subcommand::Open);
    let settings = invocation.settings.clone();
    assert_eq!(
        calls(invocation, false),
        vec![
            Action::Configure(settings),
            Action::ProbeOutput,
            Action::Build(ArtifactSet::OnlyFrontend),
            Action::OpenDocs,
            Action::Finish(Ok(())),
        ]
    );
}

#[test]
fn open_with_output_builds_nothing() {
    let invocation = invocation("rustdoc open");
    let settings = invocation.settings.clone();
    assert_eq!(
        calls(invocation, true),
        vec![
            Action::Configure(settings),
            Action::ProbeOutput,
            Action::OpenDocs,
            Action::Finish(Ok(())),
        ]
    );
}

#[test]
fn test_builds_everything_then_runs_the_tests() {
    let invocation = invocation("rustdoc test");
    assert_eq!(invocation.command, Subcommand::Test);
    let settings = invocation.settings.clone();
    let run = calls(invocation, true);
    assert_eq!(
        run,
        vec![
            Action::Configure(settings),
            Action::Build(ArtifactSet::Both),
            Action::RunTests,
            Action::Finish(Ok(())),
        ]
    );
    match &run[1] {
        Action::Build(artifacts) => assert_eq!(artifacts.names(), vec!["frontend", "json"]),
        other => panic!("{:?} is no build", other),
    }
}

#[test]
fn build_without_emit_builds_the_frontend() {
    for line in ["rustdoc build", "rustdoc build -o", "rustdoc -q build", "rustdoc -v build --open"]
    {
        match invocation(line).command {
            Subcommand::Build { artifacts, .. } => {
                assert_eq!(artifacts, ArtifactSet::OnlyFrontend);
                assert_eq!(artifacts.names(), vec!["frontend"]);
            }
            other => panic!("{:?} selects {:?}", line, other),
        }
    }
}

#[test]
fn emit_lists_select_their_members() {
    let cases = [
        ("rustdoc build --emit=frontend", ArtifactSet::OnlyFrontend),
        ("rustdoc build --emit=json", ArtifactSet::OnlyJson),
        ("rustdoc build --emit json", ArtifactSet::OnlyJson),
        ("rustdoc build --emit=frontend,json", ArtifactSet::Both),
        ("rustdoc build --emit=json,frontend", ArtifactSet::Both),
        ("rustdoc build --emit=json,json", ArtifactSet::OnlyJson),
        ("rustdoc build --emit=frontend,json,frontend", ArtifactSet::Both),
    ];
    for (line, expected) in cases {
        assert_eq!(
            invocation(line).command,
            Subcommand::Build { artifacts: expected, open_after: false },
            "{}",
            line
        );
    }
}

#[test]
fn the_open_flag_is_read_below_build() {
    assert_eq!(
        invocation("rustdoc build").command,
        Subcommand::Build { artifacts: ArtifactSet::OnlyFrontend, open_after: false }
    );
    assert_eq!(
        invocation("rustdoc build --open").command,
        Subcommand::Build { artifacts: ArtifactSet::OnlyFrontend, open_after: true }
    );
    assert_eq!(
        invocation("rustdoc build -o").command,
        Subcommand::Build { artifacts: ArtifactSet::OnlyFrontend, open_after: true }
    );
}

#[test]
fn quiet_and_verbose_together_are_quiet() {
    assert_eq!(invocation("rustdoc --quiet --verbose").settings.verbosity, Verbosity::Quiet);
    assert_eq!(invocation("rustdoc -v -q").settings.verbosity, Verbosity::Quiet);
    assert_eq!(invocation("rustdoc -qv test").settings.verbosity, Verbosity::Quiet);
    assert_eq!(invocation("rustdoc -q").settings.verbosity, Verbosity::Quiet);
    assert_eq!(invocation("rustdoc --verbose open").settings.verbosity, Verbosity::Verbose);
    assert_eq!(invocation("rustdoc build").settings.verbosity, Verbosity::Normal);
}

#[test]
fn the_manifest_path_is_taken_from_the_command_line() {
    assert_eq!(
        invocation("rustdoc --manifest-path crates/core/Cargo.toml build").settings.manifest_path,
        "crates/core/Cargo.toml"
    );
    assert_eq!(
        invocation("rustdoc --manifest-path=../Cargo.toml").settings.manifest_path,
        "../Cargo.toml"
    );
    assert_eq!(invocation("rustdoc test").settings.manifest_path, "./Cargo.toml");
}

#[test]
fn what_the_command_line_does_not_offer_is_refused() {
    assert_eq!(parse("rustdoc build --emit=html"), Err(ErrorKind::InvalidValue));
    assert_eq!(parse("rustdoc publish"), Err(ErrorKind::UnknownArgument));
    assert_eq!(parse("rustdoc test --emit=json"), Err(ErrorKind::UnknownArgument));
    assert_eq!(parse("rustdoc open -o"), Err(ErrorKind::UnknownArgument));
    assert_eq!(parse("rustdoc --help"), Err(ErrorKind::HelpDisplayed));
    assert_eq!(parse("rustdoc --version"), Err(ErrorKind::VersionDisplayed));
}
