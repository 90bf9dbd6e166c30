use ffmpeg_next::device::{c_string, sinks, sources, DeviceIter, Direction, Info};
use ffmpeg_next::error::Error;

fn camera(name: &str, description: &str) -> Info {
    Info::wrap(name.to_string(), description.to_string())
}

#[test]
fn c_string_appends_terminator() {
    assert_eq!(c_string("video").unwrap(), b"video\0".to_vec());
    assert_eq!(c_string("").unwrap(), vec![0u8]);
    assert_eq!(c_string("a\0b"), Err(Error::InvalidData));
}

#[test]
fn sources_request() {
    let q = sources("dummy").unwrap();
    assert_eq!(q.direction(), Direction::Input);
    assert_eq!(q.device_name(), b"dummy\0");
}

#[test]
fn sinks_request() {
    let q = sinks("alsa").unwrap();
    assert_eq!(q.direction(), Direction::Output);
    assert_eq!(q.device_name(), b"alsa\0");
}

#[test]
fn null_byte_in_name_is_invalid_data() {
    assert_eq!(sources("du\0mmy").err(), Some(Error::InvalidData));
    assert_eq!(sinks("\0").err(), Some(Error::InvalidData));
    assert_eq!(sources("dummy\0").err(), Some(Error::InvalidData));
}

#[test]
fn negative_status_keeps_code() {
    for code in [-1, -22, -1094995529, i32::MIN] {
        let q = sources("video").unwrap();
        let err = q.complete(code, vec![camera("cam0", "Camera 0")]).err().unwrap();
        assert_eq!(err, Error::Native(code));
        assert_eq!(err.native_code(), Some(code));
        assert_eq!(Error::from(code), Error::Native(code));
    }
    assert_eq!(Error::InvalidData.native_code(), None);
}

#[test]
fn zero_devices_is_empty_sequence() {
    let q = sources("dummy").unwrap();
    let mut it = q.complete(0, Vec::new()).unwrap();
    assert_eq!(it.len(), 0);
    assert!(it.next().is_none());
    assert!(it.next().is_none());
}

#[test]
fn two_devices_in_native_order() {
    let q = sources("video").unwrap();
    let devices = vec![camera("cam0", "Camera 0"), camera("cam1", "Camera 1")];
    let mut it = q.complete(0, devices).unwrap();
    assert_eq!(it.len(), 2);
    let first = it.next().unwrap();
    assert_eq!(first.name(), "cam0");
    assert_eq!(first.description(), "Camera 0");
    let second = it.next().unwrap();
    assert_eq!(second.name(), "cam1");
    assert_eq!(second.description(), "Camera 1");
    assert!(it.next().is_none());
}

#[test]
fn positive_status_is_success() {
    let q = sinks("pulse").unwrap();
    let mut it = q.complete(3, vec![camera("out", "Speakers")]).unwrap();
    assert_eq!(it.next().unwrap().name(), "out");
    assert!(it.next().is_none());
}

#[test]
fn iterator_from_list() {
    let mut it = DeviceIter::new(vec![camera("a", "A"), camera("b", "B"), camera("c", "C")]);
    assert_eq!(it.len(), 3);
    assert_eq!(it.next().unwrap().name(), "a");
    assert_eq!(it.len(), 2);
    assert_eq!(it.next().unwrap().description(), "B");
    assert_eq!(it.next().unwrap().name(), "c");
    assert!(it.next().is_none());
}
