use photo_transfer::{
    convert_native, output_name, Answer, ConversionError, EntryAction, Strategy, TargetFormat,
    Transfer,
};
use std::collections::HashMap;
use std::io::Cursor;

fn sample_jpeg() -> Vec<u8> {
    let mut img = image::RgbImage::new(8, 6);
    for (x, y, p) in img.enumerate_pixels_mut() {
        *p = image::Rgb([(x * 30) as u8, (y * 40) as u8, 128]);
    }
    let mut out = Cursor::new(Vec::new());
    image::DynamicImage::ImageRgb8(img)
        .write_to(&mut out, image::ImageFormat::Jpeg)
        .unwrap();
    out.into_inner()
}

/// What one scripted run did.
struct RunLog {
    outputs: Vec<String>,
    error_copies: Vec<String>,
    prompts: usize,
    attempted: usize,
    converted: u64,
    errored: u64,
}

/// Drives a run over named files held in memory, with the external tool replaced
/// by a table of outcomes and the confirmations answered from a script.
fn run(
    files: &[(&str, Vec<u8>)],
    target: TargetFormat,
    batch_size: isize,
    tool: &HashMap<&str, bool>,
    answers: &[Answer],
) -> RunLog {
    let mut t = Transfer::new(batch_size);
    let mut log = RunLog {
        outputs: vec![],
        error_copies: vec![],
        prompts: 0,
        attempted: 0,
        converted: 0,
        errored: 0,
    };
    for (name, bytes) in files {
        let ok = match t.on_entry(name) {
            EntryAction::Skip => continue,
            EntryAction::CopyToError => {
                log.error_copies.push(name.to_string());
                continue;
            }
            EntryAction::Convert(strategy) => {
                log.attempted += 1;
                let out = output_name(name, target).unwrap();
                let ok = match strategy {
                    Strategy::NativeDecode => convert_native(bytes, target).is_ok(),
                    Strategy::ExternalTool => tool[name],
                };
                if ok {
                    log.outputs.push(out);
                } else {
                    log.error_copies.push(name.to_string());
                }
                ok
            }
        };
        if t.on_outcome(ok) {
            let answer = answers[log.prompts];
            log.prompts += 1;
            if !t.on_answer(answer) {
                break;
            }
        }
    }
    log.converted = t.converted();
    log.errored = t.errored();
    log
}

#[test]
fn mixed_directory_scenario() {
    let files = vec![
        ("a.jpg", sample_jpeg()),
        ("b.txt", b"hello".to_vec()),
        ("c.png", b"\x89PNG garbage".to_vec()),
    ];
    let tool = HashMap::from([("c.png", false)]);
    let log = run(&files, TargetFormat::Png, -1, &tool, &[]);
    assert_eq!(log.outputs, vec!["a.png".to_string()]);
    assert_eq!(log.error_copies, vec!["b.txt".to_string(), "c.png".to_string()]);
    assert_eq!(log.converted, 1);
    assert_eq!(log.errored, 2);
    assert_eq!(log.prompts, 0);
}

#[test]
fn batch_of_two_over_five_entries_prompts_twice() {
    let files: Vec<(&str, Vec<u8>)> =
        ["p1.png", "p2.png", "p3.heic", "p4.png", "p5.png"].iter().map(|n| (*n, vec![])).collect();
    let tool: HashMap<&str, bool> =
        HashMap::from([("p1.png", true), ("p2.png", false), ("p3.heic", true), ("p4.png", true), ("p5.png", true)]);
    let log = run(&files, TargetFormat::Jpeg, 2, &tool, &[Answer::Continue, Answer::Continue]);
    assert_eq!(log.prompts, 2);
    assert_eq!(log.attempted, 5);
    assert_eq!(log.converted, 4);
    assert_eq!(log.errored, 1);
}

#[test]
fn stop_at_first_prompt_processes_two_entries() {
    let files: Vec<(&str, Vec<u8>)> =
        ["p1.png", "p2.png", "p3.png", "p4.png", "p5.png"].iter().map(|n| (*n, vec![])).collect();
    let tool: HashMap<&str, bool> = files.iter().map(|(n, _)| (*n, true)).collect();
    let log = run(&files, TargetFormat::Jpeg, 2, &tool, &[Answer::Stop]);
    assert_eq!(log.prompts, 1);
    assert_eq!(log.attempted, 2);
    assert_eq!(log.outputs, vec!["p1.jpeg".to_string(), "p2.jpeg".to_string()]);
}

#[test]
fn skipped_and_unclassifiable_entries_do_not_count_toward_a_batch() {
    let files: Vec<(&str, Vec<u8>)> = ["x.png", "noext", "x.png:meta", "notes.txt", "y.png"]
        .iter()
        .map(|n| (*n, vec![]))
        .collect();
    let tool: HashMap<&str, bool> = HashMap::from([("x.png", true), ("y.png", true)]);
    let log = run(&files, TargetFormat::Jpeg, 2, &tool, &[Answer::Continue]);
    assert_eq!(log.prompts, 1);
    assert_eq!(log.error_copies, vec!["noext".to_string(), "notes.txt".to_string()]);
    assert_eq!(log.errored, 2);
}

#[test]
fn pause_state_machine() {
    let mut t = Transfer::new(2);
    assert!(!t.on_outcome(true));
    assert!(t.on_outcome(false));
    assert!(t.on_answer(Answer::Continue));
    assert!(!t.is_stopped());
    assert!(!t.on_outcome(true));
    assert!(t.on_outcome(true));
    assert!(!t.on_answer(Answer::Stop));
    assert!(t.is_stopped());
    assert_eq!(t.converted(), 3);
    assert_eq!(t.errored(), 1);
}

#[test]
fn non_positive_batch_size_never_pauses() {
    for b in [0, -1, -7] {
        let mut t = Transfer::new(b);
        for _ in 0..10 {
            assert!(!t.on_outcome(true));
        }
        assert_eq!(t.converted(), 10);
    }
}

#[test]
fn batch_size_one_pauses_after_every_attempt() {
    let mut t = Transfer::new(1);
    for _ in 0..4 {
        assert!(t.on_outcome(false));
        assert!(t.on_answer(Answer::Continue));
    }
    assert_eq!(t.errored(), 4);
}

#[test]
fn jpeg_to_png_and_back_stays_decodable() {
    let jpeg = sample_jpeg();
    let png = convert_native(&jpeg, TargetFormat::Png).unwrap();
    assert_ne!(png, jpeg);
    assert_eq!(&png[1..4], b"PNG");
    let img = image::load_from_memory(&png).unwrap();
    assert_eq!((img.width(), img.height()), (8, 6));
    // the PNG goes back through the external tool; its JPEG counterpart here is a
    // re-encoding of the decoded pixels
    let mut again = Cursor::new(Vec::new());
    img.write_to(&mut again, image::ImageFormat::Jpeg).unwrap();
    let back = convert_native(&again.into_inner(), TargetFormat::Jpeg).unwrap();
    assert_eq!(&back[0..2], &[0xFF, 0xD8]);
    let img = image::load_from_memory(&back).unwrap();
    assert_eq!((img.width(), img.height()), (8, 6));
}

#[test]
fn jpeg_to_jpeg_reencodes() {
    let jpeg = sample_jpeg();
    let out = convert_native(&jpeg, TargetFormat::Jpeg).unwrap();
    assert_eq!(&out[0..2], &[0xFF, 0xD8]);
    assert!(image::load_from_memory(&out).is_ok());
}

#[test]
fn corrupt_bytes_are_undecodable() {
    assert_eq!(convert_native(b"not an image", TargetFormat::Png), Err(ConversionError::Undecodable));
    assert_eq!(convert_native(b"", TargetFormat::Jpeg), Err(ConversionError::Undecodable));
    assert_eq!(convert_native(b"\xFF\xD8\xFF\xE0 broken", TargetFormat::Png), Err(ConversionError::Undecodable));
}

#[test]
fn png_bytes_are_not_decoded_as_jpeg() {
    let png = convert_native(&sample_jpeg(), TargetFormat::Png).unwrap();
    assert_eq!(convert_native(&png, TargetFormat::Jpeg), Err(ConversionError::Undecodable));
}
