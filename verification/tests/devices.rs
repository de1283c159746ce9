use cargo_mobile::android::emulator::{avd_list, Emulator};
use cargo_mobile::android::env::Env as AndroidEnv;
use cargo_mobile::apple::config::Config;
use cargo_mobile::apple::device::Device;
use cargo_mobile::env::Env;
use cargo_mobile::opts::NoiseLevel;
use cargo_mobile::order::{rank, Rank};
use cargo_mobile::process::Resolution;

fn names(list: &[Emulator]) -> Vec<&str> {
    list.iter().map(|e| e.name()).collect()
}

fn strings(names: &[&str]) -> Vec<String> {
    names.iter().map(|s| s.to_string()).collect()
}

#[test]
fn list_is_in_ascending_order_of_name() {
    let list = avd_list(strings(&["Pixel_7", "Nexus_5", "Pixel_3a", "Automotive"]));
    assert_eq!(names(&list), vec!["Automotive", "Nexus_5", "Pixel_3a", "Pixel_7"]);
}

#[test]
fn list_does_not_depend_on_the_order_found() {
    let a = avd_list(strings(&["b", "a", "c"]));
    let b = avd_list(strings(&["c", "b", "a"]));
    let c = avd_list(strings(&["a", "c", "b"]));
    assert_eq!(a, b);
    assert_eq!(b, c);
    assert_eq!(names(&a), vec!["a", "b", "c"]);
}

#[test]
fn list_holds_each_name_once() {
    let list = avd_list(strings(&["b", "a", "b", "a", "a"]));
    assert_eq!(names(&list), vec!["a", "b"]);
}

#[test]
fn list_of_nothing_is_empty() {
    assert_eq!(avd_list(Vec::new()), Vec::<Emulator>::new());
}

#[test]
fn list_order_is_that_of_the_derived_comparison() {
    let found = strings(&["é", "z", "Z", "a", "", "ab", "a b", "日本", "a0", "~"]);
    let list = avd_list(found.clone());
    let mut expected: Vec<Emulator> = found.into_iter().map(Emulator::new).collect();
    expected.sort();
    expected.dedup();
    assert_eq!(list, expected);
    for pair in list.windows(2) {
        assert!(pair[0] < pair[1]);
    }
}

#[test]
fn rank_orders_names_by_their_bytes() {
    assert_eq!(rank("a", "b"), Rank::Before);
    assert_eq!(rank("b", "a"), Rank::After);
    assert_eq!(rank("abc", "abc"), Rank::Same);
    assert_eq!(rank("ab", "abc"), Rank::Before);
    assert_eq!(rank("abc", "ab"), Rank::After);
    assert_eq!(rank("", "a"), Rank::Before);
    assert_eq!(rank("", ""), Rank::Same);
    assert_eq!(rank("Z", "a"), Rank::Before);
    assert_eq!(rank("z", "é"), Rank::Before);
    assert_eq!(rank("日本", "é"), Rank::After);
}

#[test]
fn emulator_keeps_its_name() {
    let emulator = Emulator::new("Pixel_7".to_string());
    assert_eq!(emulator.name(), "Pixel_7");
    assert_eq!(emulator.display(), "Pixel_7");
}

#[test]
fn emulator_is_started_from_the_sdk_root() {
    let env = AndroidEnv::new(
        Env::new(vec![("ANDROID_SDK_ROOT".to_string(), "/opt/sdk".to_string())]),
        "/opt/sdk".to_string(),
    );
    let command = Emulator::new("Pixel_7".to_string()).start(&env);
    assert_eq!(command.program(), "/opt/sdk/emulator/emulator");
    assert_eq!(command.resolution(), Resolution::Absolute);
    assert_eq!(command.args(), &vec!["-avd".to_string(), "Pixel_7".to_string()]);
    assert_eq!(
        command.env(),
        &vec![("ANDROID_SDK_ROOT".to_string(), "/opt/sdk".to_string())]
    );
}

#[test]
fn android_env_gives_back_what_it_was_made_with() {
    let vars = vec![("A".to_string(), "1".to_string()), ("B".to_string(), "2".to_string())];
    let env = AndroidEnv::new(Env::new(vars.clone()), "/sdk".to_string());
    assert_eq!(env.sdk_root(), "/sdk");
    assert_eq!(env.explicit_env(), vars);
}

#[test]
fn simulator_sets_the_flag_and_nothing_else() {
    let target = 3u8;
    let device = Device::new("id".to_string(), "Phone".to_string(), "iPhone 13".to_string(), &target);
    let same = Device::new("id".to_string(), "Phone".to_string(), "iPhone 13".to_string(), &target);
    assert_eq!(device, same);
    let simulated = same.simulator();
    assert_ne!(device, simulated);
    assert_eq!(simulated.name(), "Phone");
    assert_eq!(*simulated.target(), 3);
    assert_eq!(simulated.display(), "Phone (iPhone 13)");
    let again = simulated.simulator();
    assert_eq!(
        again,
        Device::new("id".to_string(), "Phone".to_string(), "iPhone 13".to_string(), &target)
            .simulator()
    );
}

#[test]
fn device_gives_back_its_name_and_target() {
    let target = 8u8;
    let device = Device::new("id".to_string(), "Pad".to_string(), "iPad".to_string(), &target);
    assert_eq!(device.name(), "Pad");
    assert!(std::ptr::eq(device.target(), &target));
    assert_eq!(device.display(), "Pad (iPad)");
}

#[test]
fn ipa_path_takes_the_old_candidate_first() {
    let config = Config::new("/e".to_string(), "/e/App.ipa".to_string(), "/e/Scheme.ipa".to_string());
    assert_eq!(config.export_dir(), "/e");
    assert_eq!(config.ipa_candidates(), ("/e/App.ipa".to_string(), "/e/Scheme.ipa".to_string()));
    assert_eq!(config.ipa_path(true, true), Ok("/e/App.ipa".to_string()));
    assert_eq!(config.ipa_path(true, false), Ok("/e/App.ipa".to_string()));
    assert_eq!(config.ipa_path(false, true), Ok("/e/Scheme.ipa".to_string()));
    assert_eq!(
        config.ipa_path(false, false),
        Err(("/e/App.ipa".to_string(), "/e/Scheme.ipa".to_string()))
    );
}

#[test]
fn only_the_last_noise_level_is_pedantic() {
    assert!(!NoiseLevel::Polite.pedantic());
    assert!(!NoiseLevel::LoudAndProud.pedantic());
    assert!(NoiseLevel::FranklyQuitePedantic.pedantic());
}
