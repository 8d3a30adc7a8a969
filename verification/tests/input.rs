use ascii_art::input::{check_frame_count, classify_path, kind_or_error, InputError, InputKind};

#[test]
fn gif_paths_are_animations() {
    assert_eq!(classify_path("clip.gif"), Ok(InputKind::Animation));
    assert_eq!(classify_path("some/dir/clip.GIF"), Ok(InputKind::Animation));
}

#[test]
fn other_known_containers_are_stills() {
    assert_eq!(classify_path("photo.png"), Ok(InputKind::Still));
    assert_eq!(classify_path("photo.jpg"), Ok(InputKind::Still));
    assert_eq!(classify_path("photo.JPEG"), Ok(InputKind::Still));
    assert_eq!(classify_path("dir.gif/photo.bmp"), Ok(InputKind::Still));
}

#[test]
fn unknown_paths_are_turned_down() {
    assert_eq!(classify_path("notes.txt"), Err(InputError::UnknownFormat));
    assert_eq!(classify_path("no_extension"), Err(InputError::UnknownFormat));
    assert_eq!(classify_path(""), Err(InputError::UnknownFormat));
    assert_eq!(classify_path("gif"), Err(InputError::UnknownFormat));
}

#[test]
fn detection_outcome_becomes_kind_or_error() {
    assert_eq!(kind_or_error(Some(InputKind::Animation)), Ok(InputKind::Animation));
    assert_eq!(kind_or_error(Some(InputKind::Still)), Ok(InputKind::Still));
    assert_eq!(kind_or_error(None), Err(InputError::UnknownFormat));
}

#[test]
fn empty_animation_is_an_error() {
    assert_eq!(check_frame_count(0), Err(InputError::NoFrames));
    assert_eq!(check_frame_count(1), Ok(()));
    assert_eq!(check_frame_count(usize::MAX), Ok(()));
}

#[test]
fn errors_have_messages() {
    assert_eq!(InputError::UnknownFormat.message(), "Failed to detect image format");
    assert_eq!(InputError::NoFrames.message(), "GIF contains no frames.");
}

#[test]
fn bare_names_go_by_their_extension() {
    let stills = [
        "avif", "jpg", "jpeg", "jfif", "png", "apng", "webp", "tif", "tiff", "tga", "dds",
        "bmp", "ico", "hdr", "exr", "pbm", "pam", "ppm", "pgm", "pnm", "ff", "qoi",
    ];
    for stem in ["a", "clip", "Frame_01", "my-file", "0", "GIF", "png"] {
        assert_eq!(classify_path(&format!("{}.gif", stem)), Ok(InputKind::Animation));
        assert_eq!(classify_path(&format!("{}.GIF", stem)), Ok(InputKind::Animation));
        assert_eq!(classify_path(&format!("{}.GiF", stem)), Ok(InputKind::Animation));
        for ext in stills {
            assert_eq!(classify_path(&format!("{}.{}", stem, ext)), Ok(InputKind::Still));
            let upper = ext.to_ascii_uppercase();
            assert_eq!(classify_path(&format!("{}.{}", stem, upper)), Ok(InputKind::Still));
        }
        for ext in ["", "txt", "gi", "giff", "gif_", "pcx", "mp4", "g-if", "7z", "PNGX"] {
            assert_eq!(
                classify_path(&format!("{}.{}", stem, ext)),
                Err(InputError::UnknownFormat)
            );
        }
    }
}

#[test]
fn paths_without_a_dot_are_turned_down() {
    for path in ["gif", "png", "clip", "dir/clip", "dir/gif", "/", "a b", "clip gif", "-", "_"] {
        assert_eq!(classify_path(path), Err(InputError::UnknownFormat));
    }
}

#[test]
fn plain_paths_go_by_the_extension_of_their_last_component() {
    let dirs = [
        "", "images/", "some/dir/", "./", "../", "../../up/", "/", "/abs/path/", "dir.gif/",
        "a.b/c.d/", ".hidden/", "a//b/", "-/_/", "x/./y/",
    ];
    let stems = ["ferris", "archive.tar", "a.b.c", "x.", "Frame_01", "-", "0.5"];
    for dir in dirs {
        for stem in stems {
            let gif = format!("{}{}.gif", dir, stem);
            assert_eq!(classify_path(&gif), Ok(InputKind::Animation), "{}", gif);
            let upper = format!("{}{}.GIF", dir, stem);
            assert_eq!(classify_path(&upper), Ok(InputKind::Animation), "{}", upper);
            for ext in ["png", "JPG", "jpeg", "bmp", "WebP", "tiff", "ff"] {
                let still = format!("{}{}.{}", dir, stem, ext);
                assert_eq!(classify_path(&still), Ok(InputKind::Still), "{}", still);
            }
            for ext in ["", "txt", "gi", "gif_", "pcx", "GIFF"] {
                let other = format!("{}{}.{}", dir, stem, ext);
                assert_eq!(classify_path(&other), Err(InputError::UnknownFormat), "{}", other);
            }
        }
    }
    assert_eq!(classify_path("images/ferris.gif"), Ok(InputKind::Animation));
}
