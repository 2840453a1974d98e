use imdb_ingest::config::{default_dataset_urls, default_work_dir};
use imdb_ingest::naming::{
    decompressed_path, dots_to_underscores, download_file_name, local_path, table_name_for,
};

#[test]
fn download_name_is_last_segment() {
    assert_eq!(
        download_file_name("https://datasets.imdbws.com/name.basics.tsv.gz"),
        "name.basics.tsv.gz"
    );
}

#[test]
fn download_name_falls_back_on_empty_segment() {
    assert_eq!(download_file_name("https://datasets.imdbws.com/"), "tmp.bin");
    assert_eq!(download_file_name(""), "tmp.bin");
}

#[test]
fn local_path_joins_with_separator() {
    assert_eq!(local_path("./datasets", "a.tsv.gz"), "./datasets/a.tsv.gz");
}

#[test]
fn decompressed_path_strips_gz_suffix() {
    assert_eq!(decompressed_path("./datasets/a.tsv.gz"), "./datasets/a.tsv");
}

#[test]
fn decompressed_path_keeps_other_paths() {
    assert_eq!(decompressed_path("./datasets/a.tsv"), "./datasets/a.tsv");
    assert_eq!(decompressed_path(".gz"), "");
}

#[test]
fn dots_become_underscores() {
    assert_eq!(dots_to_underscores("a.b.c"), "a_b_c");
    assert_eq!(dots_to_underscores("abc"), "abc");
    assert_eq!(dots_to_underscores("..."), "___");
    assert_eq!(dots_to_underscores(""), "");
}

#[test]
fn table_name_from_path() {
    assert_eq!(table_name_for("./datasets/name.basics.tsv"), "name_basics");
    assert_eq!(table_name_for("title.ratings.tsv"), "title_ratings");
    assert_eq!(table_name_for("./d/plain"), "plain");
}

#[test]
fn table_names_for_fixed_list_are_pairwise_distinct() {
    let dir = default_work_dir();
    let mut names: Vec<String> = Vec::new();
    for url in default_dataset_urls() {
        let file = download_file_name(&url);
        let fetched = local_path(&dir, &file);
        let data = decompressed_path(&fetched);
        names.push(table_name_for(&data));
    }
    assert_eq!(
        names,
        vec![
            "name_basics",
            "title_basics",
            "title_ratings",
            "title_crew",
            "title_principals",
            "title_episode",
            "title_akas"
        ]
    );
    for i in 0..names.len() {
        for j in 0..names.len() {
            if i != j {
                assert_ne!(names[i], names[j]);
            }
        }
    }
}
