use mbed_key_management::error::KeyError;
use mbed_key_management::id_allocator::{IdAllocator, KEY_ID_MAX};
use mbed_key_management::key_info::{ApplicationName, KeyInfo, KeyTriple, ManageKeyInfo};
use mbed_key_management::key_management::{
    export_buffer, get_key_id, key_info_exists, settle_export, MbedProvider,
};
use mbed_key_management::memory_store::InMemoryKeyInfoManager;
use parsec_interface::requests::ProviderId;
use psa_crypto::types::algorithm::Algorithm;
use psa_crypto::types::key::{Attributes, Lifetime, Policy, Type, UsageFlags};
use psa_crypto::types::status::Error;

fn attributes(bits: usize) -> Attributes {
    Attributes {
        lifetime: Lifetime::Persistent,
        key_type: Type::RsaKeyPair,
        bits,
        policy: Policy {
            usage_flags: UsageFlags::default(),
            permitted_algorithms: Algorithm::None,
        },
    }
}

fn app(name: &str) -> ApplicationName {
    ApplicationName::new(String::from(name))
}

fn triple(app_name: &str, key_name: &str) -> KeyTriple {
    KeyTriple::new(app(app_name), ProviderId::MbedCrypto, String::from(key_name))
}

fn provider(last_issued: u32) -> MbedProvider<InMemoryKeyInfoManager> {
    MbedProvider::new(InMemoryKeyInfoManager::new(), IdAllocator::new(last_issued))
}

fn has_record(provider: &MbedProvider<InMemoryKeyInfoManager>, app_name: &str, key_name: &str) -> bool {
    key_info_exists(&triple(app_name, key_name), provider.key_info_store()).unwrap()
}

#[test]
fn generate_binds_the_triple_and_a_second_generate_conflicts() {
    let mut p = provider(0);
    assert!(!has_record(&p, "app", "key"));
    let mut handed = None;
    let r = p.psa_generate_key_internal(app("app"), String::from("key"), attributes(1024), |a, id| {
        handed = Some((a, id));
        Ok(())
    });
    assert_eq!(r, Ok(()));
    assert_eq!(handed, Some((attributes(1024), 1)));
    assert!(has_record(&p, "app", "key"));
    assert_eq!(get_key_id(&triple("app", "key"), p.key_info_store()), Ok(1));

    let mut called = false;
    let r = p.psa_generate_key_internal(app("app"), String::from("key"), attributes(2048), |_, _| {
        called = true;
        Ok(())
    });
    assert_eq!(r, Err(KeyError::AlreadyExists));
    assert!(!called);
    assert_eq!(p.id_counter(), 1);
    let kept = p.key_info_store().get(&triple("app", "key")).unwrap().unwrap();
    assert_eq!(kept.attributes, attributes(1024));
}

#[test]
fn generate_keeps_triples_of_other_applications_apart() {
    let mut p = provider(0);
    assert_eq!(
        p.psa_generate_key_internal(app("one"), String::from("key"), attributes(256), |_, _| Ok(())),
        Ok(())
    );
    assert_eq!(
        p.psa_generate_key_internal(app("two"), String::from("key"), attributes(256), |_, _| Ok(())),
        Ok(())
    );
    assert_eq!(get_key_id(&triple("one", "key"), p.key_info_store()), Ok(1));
    assert_eq!(get_key_id(&triple("two", "key"), p.key_info_store()), Ok(2));
    let other_provider = KeyTriple::new(app("one"), ProviderId::Tpm, String::from("key"));
    assert_eq!(key_info_exists(&other_provider, p.key_info_store()), Ok(false));
}

#[test]
fn import_hands_the_key_to_the_backend() {
    let mut p = provider(41);
    let mut handed = None;
    let r = p.psa_import_key_internal(
        app("app"),
        String::from("imported"),
        attributes(128),
        vec![9, 8, 7],
        |a, id, data| {
            handed = Some((a, id, data));
            Ok(())
        },
    );
    assert_eq!(r, Ok(()));
    assert_eq!(handed, Some((attributes(128), 42, vec![9, 8, 7])));
    assert!(has_record(&p, "app", "imported"));
    let r = p.psa_import_key_internal(
        app("app"),
        String::from("imported"),
        attributes(128),
        vec![1],
        |_, _, _| Ok(()),
    );
    assert_eq!(r, Err(KeyError::AlreadyExists));
}

#[test]
fn destroy_after_generate_unbinds_the_triple() {
    let mut p = provider(0);
    assert_eq!(
        p.psa_generate_key_internal(app("app"), String::from("key"), attributes(1024), |_, _| Ok(())),
        Ok(())
    );
    let mut asked = None;
    let r = p.psa_destroy_key_internal(app("app"), String::from("key"), |id| {
        asked = Some(id);
        Ok(())
    });
    assert_eq!(r, Ok(()));
    assert_eq!(asked, Some(1));
    assert!(!has_record(&p, "app", "key"));
    assert_eq!(p.key_info_store().len(), 0);
}

#[test]
fn destroy_of_an_absent_key_is_not_found() {
    let mut p = provider(0);
    let mut called = false;
    let r = p.psa_destroy_key_internal(app("app"), String::from("key"), |_| {
        called = true;
        Ok(())
    });
    assert_eq!(r, Err(KeyError::DoesNotExist));
    assert!(!called);
}

#[test]
fn destroy_keeps_the_record_when_the_backend_fails() {
    let mut p = provider(0);
    assert_eq!(
        p.psa_generate_key_internal(app("app"), String::from("key"), attributes(1024), |_, _| Ok(())),
        Ok(())
    );
    let r = p.psa_destroy_key_internal(app("app"), String::from("key"), |_| Err(Error::HardwareFailure));
    assert_eq!(r, Err(KeyError::BackendFailure(Error::HardwareFailure)));
    assert!(has_record(&p, "app", "key"));
    assert_eq!(get_key_id(&triple("app", "key"), p.key_info_store()), Ok(1));
}

#[test]
fn identifiers_are_distinct_across_creations_and_destructions() {
    let mut p = provider(0);
    let mut ids: Vec<u32> = Vec::new();
    for round in 0..20u32 {
        let name = format!("key{}", round);
        let r = if round % 2 == 0 {
            p.psa_generate_key_internal(app("app"), name.clone(), attributes(256), |_, id| {
                ids.push(id);
                Ok(())
            })
        } else {
            p.psa_import_key_internal(app("app"), name.clone(), attributes(256), vec![1, 2], |_, id, _| {
                ids.push(id);
                Ok(())
            })
        };
        assert_eq!(r, Ok(()));
        if round % 3 == 0 {
            assert_eq!(p.psa_destroy_key_internal(app("app"), name, |_| Ok(())), Ok(()));
        }
    }
    assert_eq!(ids, (1..=20).collect::<Vec<u32>>());
    let r = p.psa_generate_key_internal(app("app"), String::from("key0"), attributes(256), |_, id| {
        ids.push(id);
        Ok(())
    });
    assert_eq!(r, Ok(()));
    assert_eq!(ids.len(), 21);
    for i in 0..ids.len() {
        for j in (i + 1)..ids.len() {
            assert_ne!(ids[i], ids[j]);
        }
    }
}

#[test]
fn failed_creation_leaves_no_record_and_its_identifier_is_not_reused() {
    let mut p = provider(0);
    let mut first = None;
    let r = p.psa_generate_key_internal(app("app"), String::from("key"), attributes(1024), |_, id| {
        first = Some(id);
        Err(Error::InsufficientStorage)
    });
    assert_eq!(r, Err(KeyError::BackendFailure(Error::InsufficientStorage)));
    assert_eq!(first, Some(1));
    assert!(!has_record(&p, "app", "key"));
    assert_eq!(p.key_info_store().len(), 0);
    assert_eq!(p.id_counter(), 1);

    let mut second = None;
    let r = p.psa_generate_key_internal(app("app"), String::from("key"), attributes(1024), |_, id| {
        second = Some(id);
        Ok(())
    });
    assert_eq!(r, Ok(()));
    assert_eq!(second, Some(2));
}

#[test]
fn failed_import_leaves_no_record() {
    let mut p = provider(7);
    let r = p.psa_import_key_internal(
        app("app"),
        String::from("key"),
        attributes(1024),
        vec![0; 16],
        |_, _, _| Err(Error::InvalidArgument),
    );
    assert_eq!(r, Err(KeyError::BackendFailure(Error::InvalidArgument)));
    assert!(!has_record(&p, "app", "key"));
    assert_eq!(p.id_counter(), 8);
}

#[test]
fn export_returns_what_the_backend_produced_and_no_more() {
    let mut p = provider(0);
    assert_eq!(
        p.psa_generate_key_internal(app("app"), String::from("key"), attributes(1024), |_, _| Ok(())),
        Ok(())
    );
    let mut asked = Vec::new();
    let mut given = None;
    let r = p.psa_export_public_key_internal(
        app("app"),
        String::from("key"),
        |id| {
            asked.push(id);
            Ok(8)
        },
        |id, mut buffer| {
            given = Some((id, buffer.clone()));
            buffer[0] = 0xaa;
            buffer[1] = 0xbb;
            buffer[2] = 0xcc;
            buffer[5] = 0xff;
            Ok((buffer, 3))
        },
    );
    assert_eq!(r, Ok(vec![0xaa, 0xbb, 0xcc]));
    assert_eq!(asked, vec![1]);
    assert_eq!(given, Some((1, vec![0u8; 8])));
}

#[test]
fn export_of_an_absent_key_is_not_found() {
    let p = provider(0);
    let mut called = false;
    let r = p.psa_export_public_key_internal(
        app("app"),
        String::from("key"),
        |_| {
            called = true;
            Ok(8)
        },
        |_, buffer| Ok((buffer, 0)),
    );
    assert_eq!(r, Err(KeyError::DoesNotExist));
    assert!(!called);
}

#[test]
fn export_reports_the_backend_failure_of_either_step() {
    let mut p = provider(0);
    assert_eq!(
        p.psa_generate_key_internal(app("app"), String::from("key"), attributes(1024), |_, _| Ok(())),
        Ok(())
    );
    let mut exported = false;
    let r = p.psa_export_public_key_internal(
        app("app"),
        String::from("key"),
        |_| Err(Error::InvalidHandle),
        |_, buffer| {
            exported = true;
            Ok((buffer, 0))
        },
    );
    assert_eq!(r, Err(KeyError::BackendFailure(Error::InvalidHandle)));
    assert!(!exported);
    let r = p.psa_export_public_key_internal(
        app("app"),
        String::from("key"),
        |_| Ok(4),
        |_, _| Err(Error::NotPermitted),
    );
    assert_eq!(r, Err(KeyError::BackendFailure(Error::NotPermitted)));
}

#[test]
fn export_buffer_is_all_zeros() {
    assert_eq!(export_buffer(0), Vec::<u8>::new());
    assert_eq!(export_buffer(5), vec![0u8, 0, 0, 0, 0]);
}

#[test]
fn settle_export_cuts_the_buffer_to_the_produced_length() {
    assert_eq!(settle_export(vec![1, 2, 3, 4, 5], Ok(2)), Ok(vec![1, 2]));
    assert_eq!(settle_export(vec![1, 2, 3, 4, 5], Ok(5)), Ok(vec![1, 2, 3, 4, 5]));
    assert_eq!(settle_export(vec![1, 2, 3, 4, 5], Ok(0)), Ok(vec![]));
    assert_eq!(settle_export(vec![1, 2], Ok(4)), Ok(vec![1, 2, 0, 0]));
    assert_eq!(
        settle_export(vec![1, 2], Err(Error::BufferTooSmall)),
        Err(KeyError::BackendFailure(Error::BufferTooSmall))
    );
}

#[test]
fn exhausted_allocator_refuses_every_creation_and_stays_at_the_maximum() {
    let mut p = provider(KEY_ID_MAX - 1);
    let mut last = None;
    let r = p.psa_generate_key_internal(app("app"), String::from("last"), attributes(256), |_, id| {
        last = Some(id);
        Ok(())
    });
    assert_eq!(r, Ok(()));
    assert_eq!(last, Some(0x3fff_ffff));
    assert_eq!(p.id_counter(), 0x3fff_ffff);
    for round in 0..5 {
        let mut called = false;
        let r = p.psa_generate_key_internal(
            app("app"),
            format!("more{}", round),
            attributes(256),
            |_, _| {
                called = true;
                Ok(())
            },
        );
        assert_eq!(r, Err(KeyError::ResourceExhausted));
        assert!(!called);
        let r = p.psa_import_key_internal(
            app("app"),
            format!("more{}", round),
            attributes(256),
            vec![1],
            |_, _, _| Ok(()),
        );
        assert_eq!(r, Err(KeyError::ResourceExhausted));
        assert_eq!(p.id_counter(), KEY_ID_MAX);
        assert!(!has_record(&p, "app", &format!("more{}", round)));
    }
    assert_eq!(
        p.psa_generate_key_internal(app("app"), String::from("last"), attributes(256), |_, _| Ok(())),
        Err(KeyError::AlreadyExists)
    );
}

#[test]
fn a_hundred_generates_get_a_hundred_identifiers() {
    let mut p = provider(0);
    let mut ids: Vec<u32> = Vec::new();
    for n in 0..100 {
        let r = p.psa_generate_key_internal(app("app"), format!("key-{}", n), attributes(256), |_, id| {
            ids.push(id);
            Ok(())
        });
        assert_eq!(r, Ok(()));
    }
    let mut sorted = ids.clone();
    sorted.sort();
    sorted.dedup();
    assert_eq!(sorted.len(), 100);
    assert_eq!(p.key_info_store().len(), 100);
}

#[test]
fn two_generates_of_one_triple_give_one_success_and_one_conflict() {
    let mut p = provider(0);
    let results = [
        p.psa_generate_key_internal(app("app"), String::from("key"), attributes(256), |_, _| Ok(())),
        p.psa_generate_key_internal(app("app"), String::from("key"), attributes(256), |_, _| Ok(())),
    ];
    assert_eq!(results.iter().filter(|r| r.is_ok()).count(), 1);
    assert_eq!(
        results.iter().filter(|r| **r == Err(KeyError::AlreadyExists)).count(),
        1
    );
}

#[test]
fn the_steps_of_a_creation_can_be_taken_one_by_one() {
    let mut p = provider(0);
    let binding = p.reserve_key(app("app"), String::from("key"), attributes(512)).unwrap();
    assert_eq!(binding.key_id(), 1);
    assert_eq!(*binding.key_triple(), triple("app", "key"));
    assert!(has_record(&p, "app", "key"));
    assert_eq!(p.settle_key_creation(binding, Ok(())), Ok(()));
    assert!(has_record(&p, "app", "key"));

    let binding = p.reserve_key(app("app"), String::from("other"), attributes(512)).unwrap();
    assert_eq!(binding.key_id(), 2);
    assert_eq!(
        p.settle_key_creation(binding, Err(Error::GenericError)),
        Err(KeyError::BackendFailure(Error::GenericError))
    );
    assert!(!has_record(&p, "app", "other"));
    assert_eq!(
        p.reserve_key(app("app"), String::from("key"), attributes(512)).unwrap_err(),
        KeyError::AlreadyExists
    );
}

#[test]
fn the_steps_of_a_destruction_can_be_taken_one_by_one() {
    let mut p = provider(4);
    let binding = p.reserve_key(app("app"), String::from("key"), attributes(512)).unwrap();
    assert_eq!(p.settle_key_creation(binding, Ok(())), Ok(()));
    let located = p.locate_key(app("app"), String::from("key")).unwrap();
    assert_eq!(located.key_id(), 5);
    assert_eq!(
        p.settle_key_destruction(located, Err(Error::BadState)),
        Err(KeyError::BackendFailure(Error::BadState))
    );
    assert!(has_record(&p, "app", "key"));
    let located = p.locate_key(app("app"), String::from("key")).unwrap();
    assert_eq!(p.settle_key_destruction(located, Ok(())), Ok(()));
    assert!(!has_record(&p, "app", "key"));
    assert_eq!(
        p.locate_key(app("app"), String::from("key")).unwrap_err(),
        KeyError::DoesNotExist
    );
}

#[test]
fn a_record_without_an_identifier_cannot_be_located() {
    let mut store = InMemoryKeyInfoManager::new();
    store
        .insert(triple("app", "key"), KeyInfo { id: vec![1, 2, 3], attributes: attributes(256) })
        .unwrap();
    let mut p = MbedProvider::new(store, IdAllocator::new(0));
    assert_eq!(
        p.locate_key(app("app"), String::from("key")).unwrap_err(),
        KeyError::StoreFailure
    );
    let mut called = false;
    let r = p.psa_destroy_key_internal(app("app"), String::from("key"), |_| {
        called = true;
        Ok(())
    });
    assert_eq!(r, Err(KeyError::StoreFailure));
    assert!(!called);
    assert!(has_record(&p, "app", "key"));
}
