use launcher_core::decimal::decimal_text;
use launcher_core::launch::launch_command;
use launcher_core::settings::{GameSettings, Resolution};

#[test]
fn decimal_text_of_small_and_large_numbers() {
    assert_eq!(decimal_text(0), "0");
    assert_eq!(decimal_text(7), "7");
    assert_eq!(decimal_text(9), "9");
    assert_eq!(decimal_text(10), "10");
    assert_eq!(decimal_text(4096), "4096");
    assert_eq!(decimal_text(1_000_000), "1000000");
    assert_eq!(decimal_text(1234567890), "1234567890");
    assert_eq!(decimal_text(u32::MAX), "4294967295");
}

#[test]
fn decimal_text_agrees_with_the_standard_notation() {
    let mut n: u32 = 1;
    for _ in 0..40 {
        assert_eq!(decimal_text(n), n.to_string());
        n = n.wrapping_mul(7).wrapping_add(3);
    }
}

#[test]
fn launch_command_for_default_settings() {
    assert_eq!(
        launch_command(&GameSettings::default()),
        "/usr/bin/java -Xmx4096M -jar minecraft.jar --width 1920 --height 1080"
    );
}

#[test]
fn launch_command_uses_path_memory_and_resolution() {
    let settings = GameSettings {
        allocated_memory_mb: 8192,
        runtime_path: String::from("C:\\Program Files\\Java\\bin\\java.exe"),
        resolution: Resolution { width: 800, height: 600 },
        fullscreen: true,
        render_distance: 32,
        master_volume_bits: 0,
    };
    assert_eq!(
        launch_command(&settings),
        "C:\\Program Files\\Java\\bin\\java.exe -Xmx8192M -jar minecraft.jar --width 800 --height 600"
    );
}

#[test]
fn launch_command_keeps_odd_values_as_they_are() {
    let settings = GameSettings {
        allocated_memory_mb: 0,
        runtime_path: String::new(),
        resolution: Resolution { width: 0, height: u32::MAX },
        fullscreen: false,
        render_distance: 0,
        master_volume_bits: 0,
    };
    assert_eq!(
        launch_command(&settings),
        " -Xmx0M -jar minecraft.jar --width 0 --height 4294967295"
    );
}
