use decafo::domain::career::create_career;
use decafo::domain::career::entity::{CareerEntity, Date};
use decafo::domain::career::find_by_user_id;
use decafo::repositories::career::{FetchError, InMemoryRepository, InsertError, Repository};

fn day(year: i32, month: u8, day: u8) -> Date {
    Date { year, month, day }
}

#[test]
fn it_should_be_return_ok() {
    let mut repo = InMemoryRepository::new();
    let req = create_career::Request {
        user_id: 1,
        company: "PineApple".to_string(),
        job: "Server Engineer".to_string(),
        in_at: day(2022, 1, 1),
        out_at: None,
    };

    let res = create_career::execute(&mut repo, req);

    match res {
        Ok(res) => {
            assert_eq!(res.company, "PineApple".to_string());
            assert_eq!(res.job, "Server Engineer".to_string());
            assert_eq!(res.user_id, 1);
        }
        _ => unreachable!(),
    }
    assert_eq!(repo.len(), 1);
}

#[test]
fn it_should_be_return_careers() {
    let mut repo = InMemoryRepository::new();

    let _ = repo.insert(
        1,
        "Micro Hard".to_string(),
        "Designer".to_string(),
        day(2016, 5, 1),
        Some(day(2018, 3, 31)),
    );

    let _ = repo.insert(
        2,
        "Micro Hard".to_string(),
        "Designer".to_string(),
        day(2016, 7, 1),
        Some(day(2018, 1, 31)),
    );

    let _ = repo.insert(1, "Wercel".to_string(), "Server Engieneer".to_string(), day(2018, 4, 1), None);

    let req = find_by_user_id::Request { user_id: 1 };
    let res = find_by_user_id::execute(&repo, req);

    match res {
        Ok(res) => {
            assert_eq!(res.careers.len(), 2);
            assert_eq!(res.careers[0].company(), "Micro Hard");
            assert_eq!(res.careers[0].job(), "Designer");
            assert_eq!(res.careers[0].in_at(), day(2016, 5, 1));
            assert_eq!(res.careers[0].out_at(), Some(day(2018, 3, 31)));
            assert_eq!(res.careers[1].company(), "Wercel");
            assert_eq!(res.careers[1].out_at(), None);
        }
        Err(_) => unreachable!(),
    }
}

#[test]
fn a_user_without_entries_has_an_empty_career() {
    let repo = InMemoryRepository::new();
    let res = find_by_user_id::execute(&repo, find_by_user_id::Request { user_id: 5 });
    assert_eq!(res.ok().map(|r| r.careers.len()), Some(0));
}

#[test]
fn career_answers_name_a_failing_store_unknown() {
    assert!(matches!(
        create_career::respond(Err(InsertError::Conflict)),
        Err(create_career::Error::Unknown)
    ));
    assert!(matches!(
        find_by_user_id::respond(Err(FetchError::NotFound)),
        Err(find_by_user_id::Error::Unknown)
    ));
    let one = CareerEntity::new(3, "c".to_string(), "j".to_string(), day(2020, 2, 29), None);
    let told = find_by_user_id::respond(Ok(vec![one.clone(), one])).ok().unwrap();
    assert_eq!(told.careers.len(), 2);
    assert_eq!(told.careers[1].job(), "j");
}
