use memetool::cache::{ThumbBitmap, ThumbCache, ThumbImageMsg};

fn entry(path: &str, page: usize) -> ThumbImageMsg {
    ThumbImageMsg {
        filepath: path.to_string(),
        page,
        image: Some(ThumbBitmap { rgba: vec![0, 0, 0, 0], width: 1, height: 1 }),
    }
}

#[test]
fn get_finds_what_insert_put_there() {
    let mut cache = ThumbCache::new();
    assert!(cache.get("a.png").is_none());
    cache.insert(entry("a.png", 0));
    let found = cache.get("a.png").expect("entry should be cached");
    assert_eq!(found.filepath, "a.png");
    assert_eq!(found.page, 0);
    assert!(cache.get("b.png").is_none());
}

#[test]
fn insert_overwrites_the_prior_entry_for_a_path() {
    let mut cache = ThumbCache::new();
    cache.insert(entry("a.png", 0));
    cache.insert(entry("a.png", 7));
    let found = cache.get("a.png").expect("entry should be cached");
    assert_eq!(found.page, 7);
}

#[test]
fn prune_removes_every_path_outside_the_live_set() {
    let mut cache = ThumbCache::new();
    cache.insert(entry("a.png", 0));
    cache.insert(entry("old.png", 0));
    let live = vec!["a.png".to_string(), "b.jpg".to_string()];
    cache.prune(&live);
    assert!(cache.contains("a.png"));
    assert!(!cache.contains("old.png"));
    assert!(!cache.contains("b.jpg"));
}

#[test]
fn prune_against_an_empty_set_empties_the_cache() {
    let mut cache = ThumbCache::new();
    cache.insert(entry("a.png", 0));
    cache.insert(entry("b.png", 1));
    let live: Vec<String> = vec![];
    cache.prune(&live);
    assert!(!cache.contains("a.png"));
    assert!(!cache.contains("b.png"));
}
