use flashcard_core::error::PipelineError;
use flashcard_core::repository::VocabularyRepository;
use flashcard_core::vocabulary::{DifficultyLevel, VocabularyItem};

fn repo_item(term: &str) -> VocabularyItem {
    VocabularyItem::new(term.to_string(), "meaning".to_string(), "noun".to_string())
}

#[test]
fn test_create_vocabulary_item() {
    let mut repo = VocabularyRepository::new();
    let id = repo.create(&repo_item("테스트")).unwrap();
    assert_eq!(id, 1);
    let created = repo.get_by_id(id).unwrap();
    assert_eq!(created.id, Some(1));
    assert_eq!(created.korean, "테스트");
}

#[test]
fn test_get_vocabulary_by_id() {
    let mut repo = VocabularyRepository::new();
    let id = repo.create(&repo_item("테스트")).unwrap();
    let retrieved = repo.get_by_id(id);
    assert!(retrieved.is_some());
    assert_eq!(retrieved.unwrap().korean, "테스트");
    assert!(repo.get_by_id(id + 1).is_none());
}

#[test]
fn test_update_vocabulary_item() {
    let mut repo = VocabularyRepository::new();
    let id = repo.create(&repo_item("테스트")).unwrap();
    let mut changed = repo.get_by_id(id).unwrap();
    changed.korean = "수정된테스트".to_string();
    repo.update(&changed).unwrap();
    assert_eq!(repo.get_by_id(id).unwrap().korean, "수정된테스트");
    let no_id = repo_item("x");
    assert!(matches!(repo.update(&no_id), Err(PipelineError::Validation(_))));
}

#[test]
fn test_delete_vocabulary_item() {
    let mut repo = VocabularyRepository::new();
    let id = repo.create(&repo_item("테스트")).unwrap();
    assert!(repo.delete(id));
    assert!(repo.get_by_id(id).is_none());
    assert!(!repo.delete(id));
    assert_eq!(repo.count(), 0);
    let next = repo.create(&repo_item("다음")).unwrap();
    assert_eq!(next, 2);
}

#[test]
fn test_list_vocabulary_items() {
    let mut repo = VocabularyRepository::new();
    for i in 1..=5 {
        repo.create(&repo_item(&format!("테스트{}", i))).unwrap();
    }
    let mut other = repo_item("기타");
    other.category = "verb".to_string();
    repo.create(&other).unwrap();
    assert_eq!(repo.count(), 6);
    let nouns = repo.list_by_category("noun");
    assert_eq!(nouns.len(), 5);
    assert_eq!(nouns[0].korean, "테스트5");
    assert_eq!(repo.list_by_category("verb").len(), 1);
}

#[test]
fn test_find_by_term() {
    let mut repo = VocabularyRepository::new();
    repo.create(&repo_item("unique_term")).unwrap();
    let found = repo.find_by_content("unique_term", "meaning", "noun");
    assert!(found.is_some());
    assert_eq!(found.unwrap().korean, "unique_term");
    assert!(repo.find_by_content("nonexistent", "meaning", "noun").is_none());
}

#[test]
fn difficulty_keys_round_trip() {
    for d in [
        DifficultyLevel::Beginner,
        DifficultyLevel::Elementary,
        DifficultyLevel::Intermediate,
        DifficultyLevel::Advanced,
        DifficultyLevel::Native,
    ] {
        assert_eq!(DifficultyLevel::from_key(d.as_key()).unwrap(), d);
    }
    assert!(matches!(DifficultyLevel::from_key("expert"), Err(PipelineError::Validation(_))));
}

#[test]
fn running_out_of_ids_is_a_database_error() {
    let mut repo = VocabularyRepository::new();
    repo.next_id = i64::MAX;
    let r = repo.create(&repo_item("끝"));
    assert!(matches!(r, Err(PipelineError::Database(_))));
    assert_eq!(repo.count(), 0);
}
