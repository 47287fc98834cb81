use windows_dpi::windows::{Enable, Source};
use windows_dpi::{probe, BaselineLibrary, CapabilitySet, ScalingLibrary, Surface};

fn full_system() -> CapabilitySet<&'static str, &'static str, &'static str> {
    let scaling = ScalingLibrary::Loaded {
        set_process_dpi_awareness: Some("set awareness"),
        get_dpi_for_monitor: Some("monitor dpi"),
    };
    match probe(scaling, BaselineLibrary::Loaded(Some("set aware"))) {
        Ok(caps) => caps,
        Err(error) => panic!("{}", error.message()),
    }
}

#[test]
fn desktop_dpi() {
    let scale = windows_dpi::linux::desktop_dpi();
    assert_eq!(scale.dpi(), 96);

    assert_eq!(windows_dpi::macos::desktop_dpi(), windows_dpi::macos::Source::MainScreen);

    let caps = full_system();
    assert_eq!(windows_dpi::windows::desktop_dpi(&caps), Source::Global);
}

#[test]
fn enable_dpi() {
    windows_dpi::linux::enable_dpi();
    windows_dpi::macos::enable_dpi();

    let caps = full_system();
    match windows_dpi::windows::enable_dpi(&caps) {
        Enable::SetAwareness(entry, level) => {
            assert_eq!(*entry, "set awareness");
            assert_eq!(level.level(), 2);
        }
        Enable::SetAware(_) => panic!("the scaling library was there"),
    }
}

#[test]
fn get_dpi_for_null() {
    let scale = windows_dpi::linux::get_dpi_for(Surface::Absent);
    assert_eq!(scale, windows_dpi::linux::desktop_dpi());

    assert_eq!(
        windows_dpi::macos::get_dpi_for(Surface::Absent),
        windows_dpi::macos::desktop_dpi()
    );

    let caps = full_system();
    assert_eq!(
        windows_dpi::windows::get_dpi_for(&caps, Surface::Absent),
        windows_dpi::windows::desktop_dpi(&caps)
    );
}
