use heliodesk::event::{deep_link_event, second_instance_event, Emission, DEEP_LINK_EVENT};
use heliodesk::startup::{on_failure, setup_steps, FailurePolicy, SetupStep};

fn argv(items: &[&str]) -> Vec<String> {
    items.iter().map(|item| item.to_string()).collect()
}

fn deep_link(url: &str) -> Emission {
    Emission { event: "deep-link".to_string(), payload: url.to_string() }
}

#[test]
fn event_name_is_deep_link() {
    assert_eq!(DEEP_LINK_EVENT, "deep-link");
}

#[test]
fn no_event_without_arguments() {
    assert_eq!(deep_link_event(&argv(&[])), None);
}

#[test]
fn no_event_for_program_name_alone() {
    assert_eq!(deep_link_event(&argv(&["app.exe"])), None);
}

#[test]
fn event_carries_the_deep_link_as_payload() {
    let emission = deep_link_event(&argv(&["app.exe", "heliodesk://open/note/42"]));
    assert_eq!(emission, Some(deep_link("heliodesk://open/note/42")));
}

#[test]
fn event_carries_the_first_qualifying_argument() {
    let emission = deep_link_event(&argv(&["app.exe", "--flag", "value", "heliodesk://x"]));
    assert_eq!(emission, Some(deep_link("heliodesk://x")));
}

#[test]
fn event_carries_the_lowest_of_several_deep_links() {
    let emission = deep_link_event(&argv(&["app.exe", "tauri://a", "heliodesk://b"]));
    assert_eq!(emission, Some(deep_link("tauri://a")));
}

#[test]
fn second_instance_forwards_its_deep_link() {
    let emission = second_instance_event(&argv(&["app.exe", "tauri://settings"]), "/tmp");
    assert_eq!(emission, Some(deep_link("tauri://settings")));
}

#[test]
fn second_instance_ignores_the_working_directory() {
    let args = argv(&["app.exe", "tauri://settings"]);
    let expected = Some(deep_link("tauri://settings"));
    assert_eq!(second_instance_event(&args, "/tmp"), expected);
    assert_eq!(second_instance_event(&args, ""), expected);
    assert_eq!(second_instance_event(&args, "heliodesk://elsewhere"), expected);

    let plain = argv(&["app.exe"]);
    assert_eq!(second_instance_event(&plain, "/tmp"), None);
    assert_eq!(second_instance_event(&plain, "heliodesk://elsewhere"), None);
}

#[test]
fn second_instance_without_deep_link_forwards_nothing() {
    assert_eq!(second_instance_event(&argv(&["app.exe", "--minimized"]), "/home/user"), None);
}

#[test]
fn release_setup_without_deep_link_sets_the_icon_only() {
    let steps = setup_steps(false, &argv(&["app.exe"]));
    assert_eq!(steps, vec![SetupStep::SetWindowIcon]);
}

#[test]
fn debug_setup_installs_the_logger_first() {
    let steps = setup_steps(true, &argv(&["app.exe"]));
    assert_eq!(steps, vec![SetupStep::InstallLogger, SetupStep::SetWindowIcon]);
}

#[test]
fn release_setup_emits_the_deep_link_last() {
    let steps = setup_steps(false, &argv(&["app.exe", "heliodesk://open/note/42"]));
    assert_eq!(
        steps,
        vec![SetupStep::SetWindowIcon, SetupStep::EmitDeepLink(deep_link("heliodesk://open/note/42"))]
    );
}

#[test]
fn debug_setup_with_deep_link_takes_all_three_steps() {
    let steps = setup_steps(true, &argv(&["app.exe", "--flag", "tauri://a", "heliodesk://b"]));
    assert_eq!(
        steps,
        vec![
            SetupStep::InstallLogger,
            SetupStep::SetWindowIcon,
            SetupStep::EmitDeepLink(deep_link("tauri://a")),
        ]
    );
}

#[test]
fn setup_emits_at_most_once() {
    let steps = setup_steps(true, &argv(&["heliodesk://a", "heliodesk://b", "tauri://c"]));
    let emitted = steps.iter().filter(|step| matches!(step, SetupStep::EmitDeepLink(_))).count();
    assert_eq!(emitted, 1);
}

#[test]
fn logger_failure_aborts_setup() {
    assert_eq!(on_failure(&SetupStep::InstallLogger), FailurePolicy::Abort);
}

#[test]
fn icon_failure_is_ignored() {
    assert_eq!(on_failure(&SetupStep::SetWindowIcon), FailurePolicy::Ignore);
}

#[test]
fn emission_failure_is_ignored() {
    assert_eq!(on_failure(&SetupStep::EmitDeepLink(deep_link("heliodesk://x"))), FailurePolicy::Ignore);
}
