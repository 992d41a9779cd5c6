use macrotis::image_info::ImageInfo;
use macrotis::image_info::ImageResolution;
use macrotis::image_info::InfoLine;

fn show(lines: &[InfoLine]) -> Vec<String> {
    lines
        .iter()
        .map(|line| match line {
            InfoLine::FileName(t) => format!("name {t}"),
            InfoLine::FileType(t) => format!("type {t}"),
            InfoLine::Resolution(t) => format!("resolution {t}"),
            InfoLine::FileSize(t) => format!("size {t}"),
        })
        .collect()
}

#[test]
fn resolution_is_written_as_width_x_height() {
    assert_eq!(ImageResolution { width: 1920, height: 1080 }.to_string(), "1920x1080");
    assert_eq!(ImageResolution { width: 0, height: 7 }.to_string(), "0x7");
    assert_eq!(ImageResolution { width: 10, height: 100 }.to_string(), "10x100");
    assert_eq!(
        ImageResolution { width: usize::MAX, height: 1 }.to_string(),
        format!("{}x1", usize::MAX)
    );
}

#[test]
fn overlay_lists_what_is_known() {
    let info = ImageInfo {
        file_name: Some("cat.png".to_string()),
        file_type: Some("PNG".to_string()),
        file_size: Some(1536),
        resolution: Some(ImageResolution { width: 640, height: 480 }),
    };
    assert_eq!(
        show(&info.lines()),
        vec!["name cat.png", "type PNG", "resolution 640x480", "size 1.5 KiB"]
    );
}

#[test]
fn overlay_leaves_out_what_is_unknown() {
    let info = ImageInfo {
        file_name: Some("cat.png".to_string()),
        file_type: None,
        file_size: Some(12),
        resolution: None,
    };
    assert_eq!(show(&info.lines()), vec!["name cat.png", "size 12 B"]);
    let nothing = ImageInfo { file_name: None, file_type: None, file_size: None, resolution: None };
    assert!(nothing.lines().is_empty());
}

#[test]
fn overlay_with_a_given_size_text() {
    let info = ImageInfo {
        file_name: None,
        file_type: Some("JPEG".to_string()),
        file_size: Some(1),
        resolution: Some(ImageResolution { width: 1, height: 2 }),
    };
    assert_eq!(
        show(&info.lines_with_size(Some("tiny".to_string()))),
        vec!["type JPEG", "resolution 1x2", "size tiny"]
    );
    assert_eq!(show(&info.lines_with_size(None)), vec!["type JPEG", "resolution 1x2"]);
}
