use pcloud::error::{ErrorClass, RedirectError};
use pcloud::redirect::{create_redirect, create_reply, get_redirect, list_redirects, resolve_reply, Reply};
use pcloud::retry::{after_insert, after_transaction, Next, TransactionOutcome, MAX_COMMIT_ATTEMPTS, MAX_KEY_ATTEMPTS};
use pcloud::service::{check_request, validate, RedirectService};
use pcloud::store::{InsertOutcome, RedirectStore};
use pcloud::types::{CreateRedirct, Redirect};

fn request(target: &str, ttl: u32, usage: Option<i64>) -> CreateRedirct {
    CreateRedirct { target: target.to_string(), destory_after: ttl, remaining_usage: usage }
}

fn service() -> RedirectService {
    RedirectService::new(RedirectStore::new())
}

#[test]
fn two_uses_then_not_found() {
    let mut service = service();
    let created = service.create(&request("https://example.com", 3600, Some(2)), 1000).unwrap();
    assert_eq!(created.target, "https://example.com");
    assert_eq!(created.destory_after, 4600);
    assert_eq!(created.remaining_usage, Some(2));
    assert_eq!(service.resolve(&created.key, 1000), Ok("https://example.com".to_string()));
    assert_eq!(service.resolve(&created.key, 1001), Ok("https://example.com".to_string()));
    assert_eq!(service.resolve(&created.key, 1002), Err(RedirectError::NotFound));
    assert_eq!(service.resolve(&created.key, 1003), Err(RedirectError::NotFound));
    assert!(service.list().is_empty());
}

#[test]
fn post_of_a_target_that_is_no_url_is_a_bad_request() {
    let mut service = service();
    let reply = create_redirect(&mut service, &request("not-a-url", 60, None));
    assert_eq!(reply, Reply::Refused(RedirectError::InvalidUrl));
    assert_eq!(reply.status(), 400);
    assert!(service.list().is_empty());
}

#[test]
fn same_candidate_drawn_twice_second_creation_retries() {
    let mut service = service();
    let first = request("https://first.example/", 60, None);
    let second = request("https://second.example/", 60, None);
    assert_eq!(service.create_with_key(&first, 10, "ABCDE".to_string()), InsertOutcome::Inserted);
    assert_eq!(
        service.create_with_key(&second, 10, "ABCDE".to_string()),
        InsertOutcome::KeyConflict
    );
    assert_eq!(after_insert(1, InsertOutcome::KeyConflict), Next::Retry);
    assert_eq!(service.create_with_key(&second, 10, "ABCDF".to_string()), InsertOutcome::Inserted);
    assert_eq!(service.list().len(), 2);
    assert_eq!(service.resolve("ABCDE", 11), Ok("https://first.example/".to_string()));
    assert_eq!(service.resolve("ABCDF", 11), Ok("https://second.example/".to_string()));
}

#[test]
fn created_link_resolves_at_once() {
    let mut service = service();
    let created = service.create(&request("https://example.com/a?b=c#d", 1, None), 500).unwrap();
    assert_eq!(service.resolve(&created.key, 500), Ok("https://example.com/a?b=c#d".to_string()));
}

#[test]
fn budget_of_n_serves_n_resolutions() {
    for n in 1..=6i64 {
        let mut service = service();
        let created = service.create(&request("https://example.com", 100, Some(n)), 0).unwrap();
        for used in 0..n {
            assert_eq!(service.resolve(&created.key, 1), Ok("https://example.com".to_string()));
            let left = service.list();
            assert_eq!(left.len(), 1);
            assert_eq!(left[0].remaining_usage, Some(n - used - 1));
        }
        assert_eq!(service.resolve(&created.key, 1), Err(RedirectError::NotFound));
        assert!(service.list().is_empty());
    }
}

#[test]
fn zero_lifetime_is_not_found_at_once() {
    let mut service = service();
    let created = service.create(&request("https://example.com", 0, None), 700).unwrap();
    assert_eq!(created.destory_after, 700);
    assert_eq!(service.list().len(), 1);
    assert_eq!(service.resolve(&created.key, 700), Err(RedirectError::NotFound));
    assert!(service.list().is_empty());
}

#[test]
fn expiry_is_the_first_instant_without_the_link() {
    let mut service = service();
    let created = service.create(&request("https://example.com", 10, None), 100).unwrap();
    assert_eq!(created.destory_after, 110);
    assert_eq!(service.resolve(&created.key, 109), Ok("https://example.com".to_string()));
    assert_eq!(service.resolve(&created.key, 110), Err(RedirectError::NotFound));
    assert_eq!(service.resolve(&created.key, 105), Err(RedirectError::NotFound));
}

#[test]
fn expired_link_stays_until_it_is_resolved() {
    let mut service = service();
    let created = service.create(&request("https://example.com", 10, Some(3)), 100).unwrap();
    let all = service.list();
    assert_eq!(all, vec![created.clone()]);
    assert_eq!(service.list(), all);
    assert_eq!(service.resolve(&created.key, 5000), Err(RedirectError::NotFound));
    assert!(service.list().is_empty());
}

#[test]
fn unlimited_link_is_never_spent() {
    let mut service = service();
    let created = service.create(&request("https://example.com", 1000, None), 0).unwrap();
    for t in 0..50 {
        assert_eq!(service.resolve(&created.key, t), Ok("https://example.com".to_string()));
    }
    assert_eq!(service.list()[0].remaining_usage, None);
}

#[test]
fn two_creations_give_two_keys() {
    let mut service = service();
    let mut keys: Vec<String> = Vec::new();
    for i in 0..300 {
        let target = format!("https://example.com/{}", i);
        let created = service.create(&request(&target, 60, None), 0).unwrap();
        assert!(!keys.contains(&created.key));
        keys.push(created.key);
    }
    for (i, key) in keys.iter().enumerate() {
        assert_eq!(service.resolve(key, 1), Ok(format!("https://example.com/{}", i)));
    }
}

#[test]
fn unknown_key_is_not_found() {
    let mut service = service();
    assert_eq!(service.resolve("NOKEY", 0), Err(RedirectError::NotFound));
    assert_eq!(service.resolve("", 0), Err(RedirectError::NotFound));
    let created = service.create(&request("https://example.com", 60, None), 0).unwrap();
    let lower = created.key.to_lowercase();
    if lower != created.key {
        assert_eq!(service.resolve(&lower, 1), Err(RedirectError::NotFound));
    }
    assert_eq!(service.list().len(), 1);
}

#[test]
fn usage_must_be_positive() {
    let mut service = service();
    assert_eq!(
        service.create(&request("https://example.com", 60, Some(0)), 0),
        Err(RedirectError::InvalidUsage)
    );
    assert_eq!(
        service.create(&request("https://example.com", 60, Some(-1)), 0),
        Err(RedirectError::InvalidUsage)
    );
    assert_eq!(
        service.create(&request("https://example.com", 60, Some(i64::MIN)), 0),
        Err(RedirectError::InvalidUsage)
    );
    assert!(service.create(&request("https://example.com", 60, Some(1)), 0).is_ok());
    assert!(service.create(&request("https://example.com", 60, Some(i64::MAX)), 0).is_ok());
    assert_eq!(service.list().len(), 2);
}

#[test]
fn target_is_judged_before_usage() {
    assert_eq!(validate(&request("not-a-url", 60, Some(0))), Err(RedirectError::InvalidUrl));
    assert_eq!(validate(&request("https://example.com", 60, Some(0))), Err(RedirectError::InvalidUsage));
    assert_eq!(validate(&request("https://example.com", 60, None)), Ok(()));
    assert_eq!(check_request(false, Some(0)), Err(RedirectError::InvalidUrl));
    assert_eq!(check_request(false, None), Err(RedirectError::InvalidUrl));
    assert_eq!(check_request(true, Some(0)), Err(RedirectError::InvalidUsage));
    assert_eq!(check_request(true, Some(1)), Ok(()));
    assert_eq!(check_request(true, None), Ok(()));
}

#[test]
fn targets_that_are_urls_and_targets_that_are_not() {
    assert_eq!(validate(&request("http://localhost:8080/r", 1, None)), Ok(()));
    assert_eq!(validate(&request("mailto:someone@example.com", 1, None)), Ok(()));
    assert_eq!(validate(&request("ftp://[::1]/file", 1, None)), Ok(()));
    assert_eq!(validate(&request("", 1, None)), Err(RedirectError::InvalidUrl));
    assert_eq!(validate(&request("/relative/path", 1, None)), Err(RedirectError::InvalidUrl));
    assert_eq!(validate(&request("example.com", 1, None)), Err(RedirectError::InvalidUrl));
    assert_eq!(validate(&request("https://", 1, None)), Err(RedirectError::InvalidUrl));
    assert_eq!(validate(&request("https://exa mple.com", 1, None)), Err(RedirectError::InvalidUrl));
    assert_eq!(validate(&request("https://example.com:99999/", 1, None)), Err(RedirectError::InvalidUrl));
}

#[test]
fn expiry_stops_at_the_last_instant() {
    let mut service = service();
    let created = service.create(&request("https://example.com", 10, None), i64::MAX - 3).unwrap();
    assert_eq!(created.destory_after, i64::MAX);
    assert_eq!(service.resolve(&created.key, i64::MAX - 1), Ok("https://example.com".to_string()));
    let early = service.create(&request("https://example.com", u32::MAX, None), -5).unwrap();
    assert_eq!(early.destory_after, 4294967290);
}

#[test]
fn record_of_a_request() {
    let req = request("https://example.com", 90, Some(4));
    assert_eq!(
        req.record("K3Y00".to_string(), 10),
        Redirect {
            key: "K3Y00".to_string(),
            target: "https://example.com".to_string(),
            destory_after: 100,
            remaining_usage: Some(4),
        }
    );
}

#[test]
fn countdown_of_a_record() {
    let record = |usage: Option<i64>| Redirect {
        key: "AAAAA".to_string(),
        target: "https://example.com".to_string(),
        destory_after: 100,
        remaining_usage: usage,
    };
    assert_eq!(record(Some(3)).countdown(99), Some(record(Some(2))));
    assert_eq!(record(Some(1)).countdown(99), Some(record(Some(0))));
    assert_eq!(record(Some(0)).countdown(99), None);
    assert_eq!(record(Some(-1)).countdown(99), None);
    assert_eq!(record(Some(i64::MIN)).countdown(99), None);
    assert_eq!(record(None).countdown(99), Some(record(None)));
    assert_eq!(record(None).countdown(100), None);
    assert_eq!(record(Some(5)).countdown(101), None);
    assert_eq!(record(Some(i64::MAX)).countdown(i64::MIN), Some(record(Some(i64::MAX - 1))));
}

#[test]
fn replies_and_their_status() {
    let record = Redirect {
        key: "AAAAA".to_string(),
        target: "https://example.com".to_string(),
        destory_after: 100,
        remaining_usage: None,
    };
    assert_eq!(create_reply(Ok(record.clone())), Reply::Created(record.clone()));
    assert_eq!(create_reply(Ok(record.clone())).status(), 200);
    assert_eq!(create_reply(Err(RedirectError::InvalidUrl)).status(), 400);
    assert_eq!(create_reply(Err(RedirectError::InvalidUsage)).status(), 400);
    assert_eq!(create_reply(Err(RedirectError::Storage)).status(), 500);
    assert_eq!(resolve_reply(Ok("https://example.com".to_string())).status(), 307);
    assert_eq!(
        resolve_reply(Ok("https://example.com".to_string())),
        Reply::Redirected("https://example.com".to_string())
    );
    assert_eq!(resolve_reply(Err(RedirectError::NotFound)).status(), 404);
    assert_eq!(resolve_reply(Err(RedirectError::Storage)).status(), 500);
    assert_eq!(Reply::Listing(vec![record]).status(), 200);
    assert_eq!(Reply::Refused(RedirectError::InvalidFormat).status(), 400);
}

#[test]
fn requests_served_by_the_clock() {
    let mut service = service();
    let reply = create_redirect(&mut service, &request("https://example.com", 3600, Some(1)));
    assert_eq!(reply.status(), 200);
    let record = match reply {
        Reply::Created(record) => record,
        other => panic!("{:?}", other),
    };
    assert_eq!(record.target, "https://example.com");
    assert_eq!(record.remaining_usage, Some(1));
    assert!(record.destory_after > 1_600_000_000 + 3600);
    assert_eq!(list_redirects(&service), Reply::Listing(vec![record.clone()]));
    let first = get_redirect(&mut service, &record.key);
    assert_eq!(first, Reply::Redirected("https://example.com".to_string()));
    assert_eq!(first.status(), 307);
    let second = get_redirect(&mut service, &record.key);
    assert_eq!(second, Reply::Refused(RedirectError::NotFound));
    assert_eq!(second.status(), 404);
    assert_eq!(list_redirects(&service), Reply::Listing(vec![]));
}

#[test]
fn zero_lifetime_served_by_the_clock() {
    let mut service = service();
    let reply = create_redirect(&mut service, &request("https://example.com", 0, None));
    let record = match reply {
        Reply::Created(record) => record,
        other => panic!("{:?}", other),
    };
    assert_eq!(get_redirect(&mut service, &record.key).status(), 404);
}

#[test]
fn bad_usage_served_by_the_clock() {
    let mut service = service();
    let reply = create_redirect(&mut service, &request("https://example.com", 60, Some(0)));
    assert_eq!(reply, Reply::Refused(RedirectError::InvalidUsage));
    assert_eq!(reply.status(), 400);
}

#[test]
fn conflicts_are_retried_up_to_the_cap() {
    assert_eq!(MAX_KEY_ATTEMPTS, 1000);
    assert_eq!(after_insert(1, InsertOutcome::Inserted), Next::Finish);
    assert_eq!(after_insert(1000, InsertOutcome::Inserted), Next::Finish);
    assert_eq!(after_insert(1, InsertOutcome::KeyConflict), Next::Retry);
    assert_eq!(after_insert(999, InsertOutcome::KeyConflict), Next::Retry);
    assert_eq!(after_insert(1000, InsertOutcome::KeyConflict), Next::GiveUp);
    assert_eq!(after_insert(1001, InsertOutcome::KeyConflict), Next::GiveUp);
    assert_eq!(after_insert(1, InsertOutcome::StorageError), Next::GiveUp);
}

#[test]
fn creation_gives_up_when_every_candidate_is_taken() {
    let mut service = service();
    let req = request("https://example.com", 60, None);
    assert_eq!(service.create_with_key(&req, 0, "TAKEN".to_string()), InsertOutcome::Inserted);
    let mut attempt: u32 = 0;
    let last = loop {
        attempt += 1;
        let outcome = service.create_with_key(&req, 0, "TAKEN".to_string());
        assert_eq!(outcome, InsertOutcome::KeyConflict);
        match after_insert(attempt, outcome) {
            Next::Retry => {}
            other => break other,
        }
    };
    assert_eq!(last, Next::GiveUp);
    assert_eq!(attempt, 1000);
    assert_eq!(create_reply(Err(RedirectError::Storage)).status(), 500);
    assert_eq!(service.list().len(), 1);
}

#[test]
fn failed_commits_are_retried_up_to_the_cap() {
    assert_eq!(MAX_COMMIT_ATTEMPTS, 10);
    assert_eq!(after_transaction(1, TransactionOutcome::Committed), Next::Finish);
    assert_eq!(after_transaction(1, TransactionOutcome::NotFound), Next::Finish);
    assert_eq!(after_transaction(10, TransactionOutcome::NotFound), Next::Finish);
    assert_eq!(after_transaction(1, TransactionOutcome::Failed), Next::Retry);
    assert_eq!(after_transaction(9, TransactionOutcome::Failed), Next::Retry);
    assert_eq!(after_transaction(10, TransactionOutcome::Failed), Next::GiveUp);
    assert_eq!(after_transaction(u32::MAX, TransactionOutcome::Failed), Next::GiveUp);
}

#[test]
fn errors_by_class_and_in_words() {
    assert_eq!(RedirectError::InvalidUrl.class(), ErrorClass::Validation);
    assert_eq!(RedirectError::InvalidUsage.class(), ErrorClass::Validation);
    assert_eq!(RedirectError::InvalidFormat.class(), ErrorClass::Validation);
    assert_eq!(RedirectError::NotFound.class(), ErrorClass::NotFound);
    assert_eq!(RedirectError::Storage.class(), ErrorClass::Storage);
    assert_eq!(RedirectError::InvalidUrl.message(), "Invalid URL");
    assert_eq!(RedirectError::InvalidUsage.message(), "Invalid remaining usage");
    assert_eq!(RedirectError::InvalidFormat.message(), "Invalid duration");
    assert_eq!(RedirectError::NotFound.message(), "Not found");
    assert_eq!(RedirectError::Storage.message(), "Internal server error");
}
