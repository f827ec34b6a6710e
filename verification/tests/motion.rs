use core_s3::bus::RegisterStep;
use core_s3::motion::{
    heading_centidegrees, motion_detected, Bmi270, Bmi270Config, Bmm150, MotionThreshold, Vector3,
};

#[test]
fn detects_motion_threshold() {
    assert!(motion_detected(
        Vector3::new(0, 0, 0),
        Vector3::new(101, 0, 0),
        MotionThreshold { accel_delta_mg: 100 }
    ));
    assert!(!motion_detected(
        Vector3::new(0, 0, 0),
        Vector3::new(10, 0, 0),
        MotionThreshold { accel_delta_mg: 100 }
    ));
}

#[test]
fn heading_handles_cardinal_directions() {
    assert_eq!(heading_centidegrees(Vector3::new(1, 0, 0)), Some(0));
    assert_eq!(heading_centidegrees(Vector3::new(0, 1, 0)), Some(9000));
}

#[test]
fn heading_other_directions() {
    assert_eq!(heading_centidegrees(Vector3::new(0, 0, 5)), None);
    assert_eq!(heading_centidegrees(Vector3::new(-1, 0, 0)), Some(18000));
    assert_eq!(heading_centidegrees(Vector3::new(0, -1, 0)), Some(27000));
    assert_eq!(heading_centidegrees(Vector3::new(10, 10, 0)), Some(4500));
}

#[test]
fn motion_detected_on_negative_deltas() {
    let t = MotionThreshold { accel_delta_mg: 50 };
    assert!(motion_detected(Vector3::new(0, 100, 0), Vector3::new(0, 49, 0), t));
    assert!(!motion_detected(Vector3::new(0, 0, 100), Vector3::new(0, 0, 51), t));
}

#[test]
fn bmi270_decodes_and_offsets_readings() {
    let mut imu = Bmi270::new(());
    assert_eq!(imu.address(), 0x68);
    assert!(imu.is_expected_chip(0x24));
    assert!(!imu.is_expected_chip(0x00));
    let data = [0x10, 0x00, 0xFF, 0xFF, 0x00, 0x80];
    assert_eq!(imu.acceleration_raw(data), Vector3::new(16, -1, -32768));
    imu.set_accel_offset(Vector3::new(6, 1, 0));
    assert_eq!(imu.acceleration_raw(data), Vector3::new(10, -2, -32768));
    imu.set_gyro_offset(Vector3::new(1, 1, 1));
    assert_eq!(imu.gyroscope_raw([1, 0, 1, 0, 1, 0]), Vector3::new(0, 0, 0));
}

#[test]
fn bmi270_plans_configuration() {
    let imu = Bmi270::new(());
    let config = Bmi270Config::default();
    assert_eq!(
        imu.configure(config),
        vec![
            RegisterStep::Write { register: 0x40, value: 0xA8 },
            RegisterStep::Write { register: 0x42, value: 0xA8 },
            RegisterStep::Write { register: 0x41, value: 0x01 },
            RegisterStep::Write { register: 0x43, value: 0x02 },
        ]
    );
    let init = imu.init(config);
    assert_eq!(init.len(), 6);
    assert_eq!(init[0], RegisterStep::Write { register: 0x7C, value: 0x00 });
    assert_eq!(init[5], RegisterStep::Write { register: 0x7D, value: 0x0E });
    let startup = imu.init_with_delay(config);
    assert_eq!(startup.before_upload[0], RegisterStep::Write { register: 0x7E, value: 0xB6 });
    assert_eq!(startup.after_upload.len(), 8);
}

#[test]
fn bmi270_upload_frames_chunk_the_config() {
    let imu = Bmi270::new(());
    let config: Vec<u8> = (0u8..40).collect();
    let frames = imu.upload_frames(&config);
    assert_eq!(frames.len(), 6);
    assert_eq!(frames[0], vec![0x5B, 0, 0]);
    assert_eq!(frames[1][0], 0x5E);
    assert_eq!(&frames[1][1..], &config[0..16]);
    assert_eq!(frames[2], vec![0x5B, 8, 0]);
    assert_eq!(frames[4], vec![0x5B, 16, 0]);
    assert_eq!(&frames[5][1..], &config[32..40]);
    let mut joined = Vec::new();
    for pair in frames.chunks(2) {
        joined.extend_from_slice(&pair[1][1..]);
    }
    assert_eq!(joined, config);
    let big = vec![0u8; 8192];
    let frames = imu.upload_frames(&big);
    assert_eq!(frames.len(), 1024);
    assert_eq!(frames[1022], vec![0x5B, 0xF8, 0x0F]);
}

#[test]
fn bmm150_decodes_field() {
    let mut mag = Bmm150::new(());
    assert_eq!(mag.address(), 0x10);
    assert!(mag.is_expected_chip(0x32));
    assert_eq!(mag.init(), vec![RegisterStep::Write { register: 0x4B, value: 0x01 }, RegisterStep::Write { register: 0x4C, value: 0x00 }]);
    // x = 0x0010 >> 3 = 2, y = 0xFFF8 >> 3 = -1, z = 0x0004 >> 1 = 2
    let data = [0x17, 0x00, 0xFF, 0xFF, 0x05, 0x00];
    assert_eq!(mag.magnetic_raw(data), Vector3::new(2, -1, 2));
    mag.set_hard_iron_offset(Vector3::new(1, 1, 1));
    assert_eq!(mag.magnetic_raw(data), Vector3::new(1, -2, 1));
}

#[test]
fn vector_offset_subtracts() {
    assert_eq!(Vector3::new(5, 5, 5).offset(Vector3::new(1, 2, 3)), Vector3::new(4, 3, 2));
    assert_eq!(Vector3::default(), Vector3::new(0, 0, 0));
}
