use wallblend::job::accumulate::{
    accumulate, calculate_new_byte, calculate_new_color, AccumulateJob, RgbPicture,
};
use wallblend::job::decode::{decode, CannotDecode};
use wallblend::job::{JobEffect, Received};

fn picture(width: u32, height: u32, raw: Vec<u8>) -> RgbPicture {
    RgbPicture::from_raw(width, height, &raw).unwrap()
}

#[test]
fn new_byte_moves_toward_the_new_value() {
    assert_eq!(calculate_new_byte(200, 100, 1), 150);
    assert_eq!(calculate_new_byte(100, 200, 1), 150);
    assert_eq!(calculate_new_byte(100, 200, 2), 167);
    assert_eq!(calculate_new_byte(201, 100, 2), 133);
}

#[test]
fn new_byte_first_iteration_takes_new_value() {
    assert_eq!(calculate_new_byte(10, 20, 0), 10);
    assert_eq!(calculate_new_byte(250, 3, 0), 250);
}

#[test]
fn new_byte_of_equal_values_is_fixed() {
    for i in 0..255u8 {
        assert_eq!(calculate_new_byte(77, 77, i), 77);
    }
}

#[test]
fn new_byte_stays_between() {
    for b in (0..=255u8).step_by(17) {
        for m in (0..=255u8).step_by(13) {
            for i in [0u8, 1, 5, 100, 254] {
                let r = calculate_new_byte(b, m, i);
                assert!(r >= b.min(m) && r <= b.max(m));
            }
        }
    }
}

#[test]
fn white_pixel_keeps_average() {
    let mut medium = [10, 20, 30];
    calculate_new_color(&[250, 251, 255], &mut medium, 3);
    assert_eq!(medium, [10, 20, 30]);
}

#[test]
fn white_average_takes_pixel() {
    let mut medium = [255, 250, 252];
    calculate_new_color(&[1, 2, 3], &mut medium, 3);
    assert_eq!(medium, [1, 2, 3]);
}

#[test]
fn coloured_pixels_blend_as_written() {
    let mut medium = [0, 0, 200];
    calculate_new_color(&[100, 50, 0], &mut medium, 1);
    assert_eq!(medium, [50, 100, 200]);
}

#[test]
fn accumulate_pairs_pixels_in_order() {
    let image = picture(3, 1, vec![100, 50, 0, 255, 255, 255, 9, 9, 9, 1, 1, 1]);
    let mut medium = picture(2, 1, vec![0, 0, 200, 10, 20, 30]);
    accumulate(&image, 1, &mut medium);
    assert_eq!(medium.width(), 2);
    assert_eq!(medium.height(), 1);
    assert_eq!(medium.into_raw(), vec![50, 100, 200, 10, 20, 30]);
}

#[test]
fn raw_round_trip() {
    let raw = vec![1, 2, 3, 4, 5, 6, 7, 8, 9, 10, 11, 12];
    let p = picture(2, 2, raw.clone());
    assert_eq!(p.len(), 4);
    assert_eq!(p.pixel(1), [4, 5, 6]);
    assert_eq!(p.into_raw(), raw);
}

#[test]
fn from_raw_ignores_extra_bytes_and_refuses_short_buffers() {
    let p = RgbPicture::from_raw(1, 1, &vec![1, 2, 3, 4]).unwrap();
    assert_eq!(p.into_raw(), vec![1, 2, 3]);
    assert!(RgbPicture::from_raw(2, 1, &vec![1, 2, 3, 4, 5]).is_none());
}

#[test]
fn from_pixels_checks_the_size() {
    assert!(RgbPicture::from_pixels(2, 1, vec![[1, 2, 3], [4, 5, 6]]).is_some());
    assert!(RgbPicture::from_pixels(2, 2, vec![[1, 2, 3], [4, 5, 6]]).is_none());
    assert!(RgbPicture::from_pixels(0, 7, vec![]).is_some());
}

#[test]
fn decode_refuses_what_is_not_a_jpeg() {
    assert_eq!(decode(&[1, 2, 3, 4]).err(), Some(CannotDecode));
    assert_eq!(decode(&[]).err(), Some(CannotDecode));
}

#[test]
fn decode_reads_a_jpeg() {
    let mut bytes: Vec<u8> = Vec::new();
    let source = image::RgbImage::from_pixel(3, 2, image::Rgb([200, 10, 10]));
    image::codecs::jpeg::JpegEncoder::new_with_quality(&mut bytes, 100)
        .encode(source.as_raw(), 3, 2, image::ColorType::Rgb8)
        .unwrap();
    let p = decode(&bytes).unwrap();
    assert_eq!(p.width(), 3);
    assert_eq!(p.height(), 2);
    assert_eq!(p.len(), 6);
    let px = p.pixel(0);
    assert!(px[0] > 150 && px[1] < 60 && px[2] < 60);
}

fn info_text(e: &JobEffect) -> String {
    match e {
        JobEffect::Info(t) => t.clone(),
        _ => panic!("not an info effect"),
    }
}

#[test]
fn accumulate_job_runs_through() {
    let job = AccumulateJob::new();
    let (job, effects) = job.step(Received::Picture(picture(1, 1, vec![0, 0, 200])));
    assert_eq!(effects.len(), 2);
    assert_eq!(info_text(&effects[0]), "Got first.");
    assert!(matches!(effects[1], JobEffect::Progress));
    let (job, effects) = job.step(Received::Picture(picture(1, 1, vec![100, 50, 0])));
    assert_eq!(info_text(&effects[0]), "Accumulated 2.");
    assert!(matches!(effects[1], JobEffect::Progress));
    let (job, effects) = job.step(Received::Disconnected);
    assert!(effects.is_empty());
    let (job, effects) = job.step(Received::End);
    assert!(matches!(job, AccumulateJob::Finished));
    assert_eq!(effects.len(), 3);
    match &effects[0] {
        JobEffect::Send { picture: Some(p), on_failure } => {
            assert_eq!(on_failure, "Can't send accumulated result");
            assert_eq!(p.pixel(0), [50, 100, 200]);
        }
        _ => panic!("expected the average to be sent"),
    }
    match &effects[1] {
        JobEffect::Send { picture: None, on_failure } => assert_eq!(on_failure, "Can't send end result"),
        _ => panic!("expected the end marker"),
    }
    assert!(matches!(effects[2], JobEffect::Closed));
}

#[test]
fn accumulate_job_without_pictures() {
    let (job, effects) = AccumulateJob::new().step(Received::End);
    assert!(matches!(job, AccumulateJob::Finished));
    assert!(matches!(&effects[0], JobEffect::Send { picture: None, on_failure } if on_failure == "Can't send early result"));
    assert!(matches!(effects[1], JobEffect::Closed));
    let (job, effects) = AccumulateJob::new().step(Received::Disconnected);
    assert!(matches!(job, AccumulateJob::Finished));
    assert_eq!(effects.len(), 3);
    assert!(matches!(&effects[0], JobEffect::Error(t) if t == "Can't get picture from channel"));
    let (job, effects) = job.step(Received::End);
    assert!(matches!(job, AccumulateJob::Finished));
    assert!(effects.is_empty());
}

#[test]
fn same_pixel_is_kept_when_its_last_channels_agree() {
    let mut medium = [10, 20, 20];
    calculate_new_color(&[10, 20, 20], &mut medium, 4);
    assert_eq!(medium, [10, 20, 20]);
    // The second channel takes the blend of the third channels.
    let mut medium = [10, 20, 30];
    calculate_new_color(&[10, 20, 30], &mut medium, 4);
    assert_eq!(medium, [10, 30, 30]);
}
