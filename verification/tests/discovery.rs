use simhub::backend::games::find_running_supported_games;
use simhub::telemetry::GameId;

fn names(list: &[&str]) -> Vec<String> {
    list.iter().map(|s| s.to_string()).collect()
}

#[test]
fn bare_process_name_matches() {
    let found = find_running_supported_games(&names(&["BeamNG.drive.x64"]));
    assert_eq!(found, vec![GameId::BeamNg]);
}

#[test]
fn exe_suffix_is_stripped() {
    let found = find_running_supported_games(&names(&["BeamNG.drive.x64.exe"]));
    assert_eq!(found, vec![GameId::BeamNg]);
}

#[test]
fn unrelated_processes_do_not_match() {
    let found = find_running_supported_games(&names(&["bash", "firefox.exe", "BeamNG.drive"]));
    assert_eq!(found, Vec::<GameId>::new());
}

#[test]
fn empty_process_list_finds_nothing() {
    let found = find_running_supported_games(&Vec::new());
    assert_eq!(found, Vec::<GameId>::new());
}

#[test]
fn matches_keep_process_list_order() {
    let found = find_running_supported_games(&names(&[
        "init",
        "BeamNG.drive.x64",
        "steam.exe",
        "BeamNG.drive.x64.exe",
    ]));
    assert_eq!(found, vec![GameId::BeamNg, GameId::BeamNg]);
}

#[test]
fn suffix_is_only_stripped_from_the_end() {
    // ".exe" in the middle of a name is not a platform suffix.
    let found = find_running_supported_games(&names(&["BeamNG.exe.x64"]));
    assert_eq!(found, Vec::<GameId>::new());
}
