use image_labeler::layout::{compute_layout, SizePolicy};
use image_labeler::paths::{get_image_file_name, output_file_path};

#[test]
fn proportional_layout_for_a_400_tall_image() {
    let l = compute_layout(600, 400, SizePolicy::Proportional);
    assert_eq!(l.label_size, 20); // 400 / 20
    assert_eq!(l.text_y, 20); // 400 / 20
    assert_eq!(l.text_x, 4); // 20 / 5
    assert_eq!(l.top, 16); // 20 - 4
    assert_eq!(l.height, 28); // 20 + 2 * 4
    assert_eq!(l.width, 600);
}

#[test]
fn height_10_image_clamps_to_an_empty_banner() {
    // height / 20 == 0, so the label size, margin and position are all 0;
    // nothing underflows and the banner's top row clamps to 0.
    let l = compute_layout(800, 10, SizePolicy::Proportional);
    assert_eq!(l.top, 0);
    assert_eq!(l.height, 0);
    assert_eq!(l.text_y, 0);
    assert!(l.top + l.height <= 10);
}

#[test]
fn zero_height_image_is_handled() {
    let l = compute_layout(5, 0, SizePolicy::Proportional);
    assert_eq!(l.top, 0);
    assert_eq!(l.height, 0);
}

#[test]
fn fixed_layout_uses_the_given_sizes() {
    let l = compute_layout(300, 400, SizePolicy::Fixed { size: 32, margin: 6 });
    assert_eq!(l.label_size, 32);
    assert_eq!(l.text_x, 6);
    assert_eq!(l.text_y, 20); // still 400 / 20
    assert_eq!(l.top, 14); // 20 - 6
    assert_eq!(l.height, 44); // 32 + 2 * 6
}

#[test]
fn fixed_layout_on_a_short_image_clamps_top_and_height() {
    // y = 10 / 20 = 0 < margin: the top clamps to 0 instead of wrapping,
    // and the height clamps to the rows that exist.
    let l = compute_layout(40, 10, SizePolicy::Fixed { size: 32, margin: 6 });
    assert_eq!(l.top, 0);
    assert_eq!(l.height, 10);
}

#[test]
fn layout_is_deterministic() {
    let a = compute_layout(1920, 1080, SizePolicy::Proportional);
    let b = compute_layout(1920, 1080, SizePolicy::Proportional);
    assert_eq!(a, b);
}

#[test]
fn file_name_strips_directories() {
    assert_eq!(get_image_file_name("/a/b/photo.png").as_deref(), Some("photo.png"));
    assert_eq!(get_image_file_name("photo.png").as_deref(), Some("photo.png"));
    assert_eq!(get_image_file_name("rel/dir/x.jpg").as_deref(), Some("x.jpg"));
}

#[test]
fn file_name_ignores_trailing_slashes() {
    assert_eq!(get_image_file_name("/a/b/").as_deref(), Some("b"));
}

#[test]
fn file_name_skips_trailing_dot_components() {
    // As std's `Path::file_name` does: a trailing `.` names its own
    // directory and is skipped.
    assert_eq!(get_image_file_name("photo.png/.").as_deref(), Some("photo.png"));
    assert_eq!(get_image_file_name("a/.").as_deref(), Some("a"));
    assert_eq!(get_image_file_name("a/././.").as_deref(), Some("a"));
    // A leading dot in a real name is not skipped.
    assert_eq!(get_image_file_name("a/.hidden").as_deref(), Some(".hidden"));
}

#[test]
fn paths_without_a_file_name_are_refused() {
    assert_eq!(get_image_file_name(""), None);
    assert_eq!(get_image_file_name("/"), None);
    assert_eq!(get_image_file_name("///"), None);
    assert_eq!(get_image_file_name("."), None);
    assert_eq!(get_image_file_name("./"), None);
    assert_eq!(get_image_file_name("./."), None);
    assert_eq!(get_image_file_name(".."), None);
    assert_eq!(get_image_file_name("a/.."), None);
    assert_eq!(get_image_file_name("./.."), None);
}

#[test]
fn output_path_joins_directory_and_base_name() {
    let name = get_image_file_name("/a/b/photo.png").unwrap();
    assert_eq!(output_file_path("out", &name), "out/photo.png");
    assert_eq!(output_file_path("./annotated", "x.png"), "./annotated/x.png");
}
