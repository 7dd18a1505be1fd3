use clientes::guard::Guard;
use clientes::memory::MemoryStore;
use clientes::model::{NewCustomer, ServiceError};

fn customer(name: &str, tax_id: &str, address: &str, email: &str, password: &str) -> NewCustomer {
    NewCustomer {
        name: name.to_string(),
        tax_id: tax_id.to_string(),
        address: address.to_string(),
        email: email.to_string(),
        password: password.to_string(),
    }
}

fn ana() -> NewCustomer {
    customer("Ana", "111.111.111-11", "Rua A", "ana@x.com", "p1")
}

#[test]
fn ana_register_duplicate_and_login_scenario() {
    let mut g = Guard::connected(MemoryStore::new());
    assert_eq!(g.register(ana(), 100), Ok(()));
    let again = customer("Ana", "222.222.222-22", "Rua A", "ana@x.com", "p1");
    assert_eq!(g.register(again, 101), Err(ServiceError::DuplicateEmail));
    let wrong = g.login(&"ana@x.com".to_string(), &"wrong".to_string());
    assert_eq!(wrong.unwrap_err(), ServiceError::InvalidCredentials);
    let ok = g.login(&"ana@x.com".to_string(), &"p1".to_string()).unwrap();
    assert_eq!(ok.id, 1);
    assert_eq!(ok.name, "Ana");
}

#[test]
fn register_then_login_returns_same_name() {
    let mut s = MemoryStore::new();
    assert_eq!(s.register(customer("Bia", "1", "Rua B", "bia@x.com", "s"), 7), Ok(()));
    assert_eq!(s.register(customer("Caio", "2", "Rua C", "caio@x.com", "t"), 8), Ok(()));
    let a = s.login(&"caio@x.com".to_string(), &"t".to_string()).unwrap();
    assert_eq!(a.id, 2);
    assert_eq!(a.name, "Caio");
    let b = s.login(&"bia@x.com".to_string(), &"s".to_string()).unwrap();
    assert_eq!(b.id, 1);
    assert_eq!(b.name, "Bia");
}

#[test]
fn duplicate_email_wins_over_duplicate_tax_id() {
    let mut s = MemoryStore::new();
    assert_eq!(s.register(ana(), 1), Ok(()));
    assert_eq!(s.register(ana(), 2), Err(ServiceError::DuplicateEmail));
    assert_eq!(s.len(), 1);
}

#[test]
fn duplicate_tax_id_with_new_email() {
    let mut s = MemoryStore::new();
    assert_eq!(s.register(ana(), 1), Ok(()));
    let other = customer("Outra", "111.111.111-11", "Rua Z", "outra@x.com", "q");
    assert_eq!(s.register(other, 2), Err(ServiceError::DuplicateTaxId));
    assert_eq!(s.len(), 1);
}

#[test]
fn login_unknown_email_is_invalid_credentials() {
    let mut s = MemoryStore::new();
    assert_eq!(s.register(ana(), 1), Ok(()));
    let r = s.login(&"nobody@x.com".to_string(), &"p1".to_string());
    assert_eq!(r.unwrap_err(), ServiceError::InvalidCredentials);
}

#[test]
fn login_is_case_sensitive() {
    let mut s = MemoryStore::new();
    assert_eq!(s.register(ana(), 1), Ok(()));
    let r = s.login(&"ANA@x.com".to_string(), &"p1".to_string());
    assert_eq!(r.unwrap_err(), ServiceError::InvalidCredentials);
    let r = s.login(&"ana@x.com".to_string(), &"P1".to_string());
    assert_eq!(r.unwrap_err(), ServiceError::InvalidCredentials);
}

#[test]
fn login_on_empty_store() {
    let s = MemoryStore::new();
    let r = s.login(&"".to_string(), &"".to_string());
    assert_eq!(r.unwrap_err(), ServiceError::InvalidCredentials);
}

#[test]
fn listing_is_by_ascending_id_without_passwords() {
    let mut s = MemoryStore::new();
    assert!(s.list_all().is_empty());
    assert_eq!(s.register(customer("Zeca", "3", "Rua 3", "z@x.com", "pz"), 30), Ok(()));
    assert_eq!(s.register(customer("Ana", "1", "Rua 1", "a@x.com", "pa"), 10), Ok(()));
    assert_eq!(s.register(ana(), 5), Ok(()));
    assert_eq!(s.register(customer("Mia", "2", "Rua 2", "m@x.com", "pm"), 20), Ok(()));
    let rows = s.list_all();
    let ids: Vec<i32> = rows.iter().map(|r| r.id).collect();
    assert_eq!(ids, vec![1, 2, 3, 4]);
    assert_eq!(rows[0].name, "Zeca");
    assert_eq!(rows[0].tax_id, "3");
    assert_eq!(rows[0].address, "Rua 3");
    assert_eq!(rows[0].email, "z@x.com");
    assert_eq!(rows[0].created_at, 30);
    assert_eq!(rows[2].email, "ana@x.com");
    for r in rows.iter() {
        let text = format!("{:?}", r);
        assert!(!text.contains("password"));
        assert!(!text.contains("\"pz\""));
    }
}

#[test]
fn failed_registrations_do_not_consume_ids() {
    let mut s = MemoryStore::new();
    assert_eq!(s.register(ana(), 1), Ok(()));
    assert_eq!(s.register(ana(), 2), Err(ServiceError::DuplicateEmail));
    assert_eq!(s.register(customer("B", "9", "R", "b@x.com", "p"), 3), Ok(()));
    let ids: Vec<i32> = s.list_all().iter().map(|r| r.id).collect();
    assert_eq!(ids, vec![1, 2]);
}

#[test]
fn disconnected_guard_is_unavailable() {
    let mut g: Guard<MemoryStore> = Guard::disconnected();
    assert!(!g.is_available());
    assert_eq!(g.register(ana(), 1), Err(ServiceError::Unavailable));
    assert_eq!(g.login(&"ana@x.com".to_string(), &"p1".to_string()).unwrap_err(), ServiceError::Unavailable);
    assert_eq!(g.list_all().unwrap_err(), ServiceError::Unavailable);
    assert_eq!(g.acquire().err(), Some(ServiceError::Unavailable));
}

#[test]
fn guard_from_option() {
    let g: Guard<MemoryStore> = Guard::from_option(None);
    assert!(!g.is_available());
    let g = Guard::from_option(Some(MemoryStore::new()));
    assert!(g.is_available());
    assert_eq!(g.acquire().unwrap().len(), 0);
    assert_eq!(g.list_all().unwrap().len(), 0);
}
