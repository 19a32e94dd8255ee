use osd::paths::{absolute_path, canonical_title, subtitle_path};

#[test]
fn title_is_the_name_without_its_last_extension() {
    assert_eq!(canonical_title("/home/u/movie.mkv"), "movie");
    assert_eq!(canonical_title("movie.mkv"), "movie");
    assert_eq!(canonical_title("/a/b.c/movie.2020.mkv"), "movie.2020");
    assert_eq!(canonical_title("/a/archive.tar.gz"), "archive.tar");
}

#[test]
fn title_of_a_name_without_extension_is_the_name() {
    assert_eq!(canonical_title("/a/b.c/movie"), "movie");
    assert_eq!(canonical_title("/a/.hidden"), ".hidden");
    assert_eq!(canonical_title("movie"), "movie");
}

#[test]
fn title_of_a_name_that_ends_in_a_dot_loses_the_dot() {
    assert_eq!(canonical_title("/a/movie."), "movie");
}

#[test]
fn title_keeps_characters_outside_ascii() {
    assert_eq!(canonical_title("/vidéos/été à Paris.mkv"), "été à Paris");
}

#[test]
fn subtitle_lies_beside_the_video() {
    assert_eq!(subtitle_path("/home/u/movie.mkv"), "/home/u/movie.srt");
    assert_eq!(subtitle_path("movie.mkv"), "movie.srt");
    assert_eq!(subtitle_path("/a/b.c/movie"), "/a/b.c/movie.srt");
    assert_eq!(subtitle_path("/a/movie.2020.mkv"), "/a/movie.2020.srt");
    assert_eq!(subtitle_path("/a/.hidden"), "/a/.hidden.srt");
    assert_eq!(subtitle_path("/a/movie."), "/a/movie.srt");
}

#[test]
fn path_that_names_no_file_is_left_as_it_is() {
    assert_eq!(subtitle_path(""), "");
    assert_eq!(subtitle_path("/a/"), "/a/");
}

#[test]
fn path_from_the_root_is_taken_as_it_is() {
    assert_eq!(absolute_path("/home/u", "/tmp/movie.mkv"), "/tmp/movie.mkv");
}

#[test]
fn other_path_is_taken_from_the_base() {
    assert_eq!(absolute_path("/home/u", "movie.mkv"), "/home/u/movie.mkv");
    assert_eq!(absolute_path("/home/u/", "movie.mkv"), "/home/u/movie.mkv");
    assert_eq!(absolute_path("/", "a/movie.mkv"), "/a/movie.mkv");
    assert_eq!(absolute_path("", "movie.mkv"), "movie.mkv");
    assert_eq!(absolute_path("/home/u", "./movie.mkv"), "/home/u/./movie.mkv");
}
