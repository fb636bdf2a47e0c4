use api_client::paginate::{Paginator, TokenPager};

#[test]
fn single_page_without_continuation() {
    let mut p: Paginator<u32> = Paginator::new("https://api.example.com/items".to_string());
    assert_eq!(p.pending(), Some("https://api.example.com/items".to_string()));
    p.accept(vec![1, 2, 3], None);
    assert_eq!(p.pending(), None);
    assert_eq!(p.into_items(), vec![1, 2, 3]);
}

#[test]
fn empty_first_page_ends_pagination() {
    let mut p: Paginator<u32> = Paginator::new("/items".to_string());
    p.accept(Vec::new(), None);
    assert_eq!(p.pending(), None);
    assert!(p.into_items().is_empty());
}

#[test]
fn follows_continuations_in_order() {
    let mut p: Paginator<u32> = Paginator::new("/items".to_string());
    p.accept(vec![1, 2], Some("/items?page=2".to_string()));
    assert_eq!(p.pending(), Some("/items?page=2".to_string()));
    p.accept(vec![3], Some("/items?page=3".to_string()));
    assert_eq!(p.pending(), Some("/items?page=3".to_string()));
    p.accept(vec![4], None);
    assert_eq!(p.pending(), None);
    assert_eq!(p.into_items(), vec![1, 2, 3, 4]);
}

#[test]
fn empty_batch_stops_even_with_continuation() {
    let mut p: Paginator<u32> = Paginator::new("/items".to_string());
    p.accept(vec![1], Some("/items?page=2".to_string()));
    p.accept(Vec::new(), Some("/items?page=3".to_string()));
    assert_eq!(p.pending(), None);
    assert_eq!(p.into_items(), vec![1]);
}

#[test]
fn page_tokens_are_followed_until_none() {
    let mut p = TokenPager::new("/drives?alt=json".to_string(), vec!["a"], "t1".to_string());
    assert_eq!(p.pending(), Some("/drives?alt=json&pageToken=t1".to_string()));
    p.accept(vec!["b"], "t2".to_string());
    assert_eq!(p.pending(), Some("/drives?alt=json&pageToken=t2".to_string()));
    p.accept(vec!["c"], String::new());
    assert_eq!(p.pending(), None);
    assert_eq!(p.into_items(), vec!["a", "b", "c"]);
}

#[test]
fn repeated_page_token_stops() {
    let mut p = TokenPager::new("/drives".to_string(), vec![1], "t".to_string());
    assert_eq!(p.pending(), Some("/drives?pageToken=t".to_string()));
    p.accept(vec![2], "t".to_string());
    assert_eq!(p.pending(), None);
    assert_eq!(p.into_items(), vec![1, 2]);
}

#[test]
fn no_first_token_means_one_page() {
    let p = TokenPager::new("/drives".to_string(), vec![1], String::new());
    assert_eq!(p.pending(), None);
}

#[test]
fn empty_token_page_ends_pagination() {
    let mut p = TokenPager::new("/drives?alt=json".to_string(), vec![1], "t1".to_string());
    p.accept(Vec::new(), "t2".to_string());
    assert_eq!(p.pending(), None);
    assert_eq!(p.into_items(), vec![1]);
}

#[test]
fn empty_first_token_page_is_the_only_page() {
    let p: TokenPager<u32> = TokenPager::new("/drives?alt=json".to_string(), Vec::new(), "t1".to_string());
    assert_eq!(p.pending(), None);
    assert!(p.into_items().is_empty());
}
