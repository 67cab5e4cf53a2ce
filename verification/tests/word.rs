use exst::lang::value::Address;
use exst::lang::value::CodeAddress;
use exst::lang::value::EnvironmentStackRelativeAddress;
use exst::lang::word::Dictionary;
use exst::lang::word::LocalDictionary;
use exst::lang::word::Word;
use exst::lang::word::WordErrorReason;

#[test]
fn test_word() {
    let mut w1 = Word::new(From::from(100));
    assert_eq!(w1.is_immediate(), false);
    assert_eq!(w1.code(), From::from(100));
    w1.immediate();
    assert_eq!(w1.is_immediate(), true);
}

#[test]
fn test_dictionary() {
    let mut d1 = Dictionary::new();

    d1.reserve_word_def(String::from("w1"), Word::new(From::from(100)));

    assert_eq!(
        match d1.find_word(&String::from("w1")).unwrap_err() {
            WordErrorReason::UndefinedWord(ref name) if name == "w1" => true,
            _ => false,
        },
        true
    );
    assert_eq!(
        d1.find_word_within_resavation(&String::from("w1")).unwrap().code(),
        From::from(100)
    );
    assert_eq!(
        match d1.find_word_within_resavation(&String::from("ZZZ")).unwrap_err() {
            WordErrorReason::UndefinedWord(ref name) if name == "ZZZ" => true,
            _ => false,
        },
        true
    );

    d1.complate_word_def().unwrap();

    assert_eq!(d1.find_word(&String::from("w1")).unwrap().code(), From::from(100));
    assert_eq!(
        d1.find_word_within_resavation(&String::from("w1")).unwrap().code(),
        From::from(100)
    );
    assert_eq!(
        match d1.find_word(&String::from("ZZZ")).unwrap_err() {
            WordErrorReason::UndefinedWord(ref name) if name == "ZZZ" => true,
            _ => false,
        },
        true
    );

    assert_eq!(
        match d1.complate_word_def().unwrap_err() {
            WordErrorReason::CompleteWordInUnreserved => true,
            _ => false,
        },
        true
    );

    d1.reserve_word_def(String::from("w1"), Word::new(From::from(200)));
    d1.complate_word_def().unwrap();
    assert_eq!(d1.find_word(&String::from("w1")).unwrap().code(), From::from(200));
}

#[test]
fn test_last_word_in_resavation() {
    let mut d1 = Dictionary::new();
    d1.reserve_word_def(String::from("w1"), Word::new(From::from(111)));

    assert_eq!(d1.find_last_word().unwrap().code(), From::from(111));
}

#[test]
fn test_local_dictionary() {
    let mut d1 = LocalDictionary::new();
    d1.push(String::from("A"));
    assert_eq!(d1.find(&String::from("A")).unwrap(), From::from(0));
    d1.push(String::from("B"));
    assert_eq!(d1.find(&String::from("B")).unwrap(), From::from(1));
    d1.push(String::from("C"));
    assert_eq!(d1.find(&String::from("C")).unwrap(), From::from(2));

    assert_eq!(
        match d1.find(&String::from("X")) {
            None => true,
            _ => false,
        },
        true
    );
}

#[test]
fn test_inverse_dict() {
    let mut d1 = Dictionary::new();
    d1.reserve_word_def(String::from("A"), Word::new(From::from(20)));
    d1.complate_word_def().unwrap();
    d1.reserve_word_def(String::from("B"), Word::new(From::from(30)));
    d1.complate_word_def().unwrap();
    d1.reserve_word_def(String::from("C"), Word::new(From::from(10)));
    d1.complate_word_def().unwrap();

    assert_eq!(d1.find_name(&From::from(9)).is_none(), true);
    assert_eq!(d1.guess_name(&From::from(9)).is_none(), true);
    assert_eq!(d1.find_name(&From::from(10)).unwrap(), "C");
    assert_eq!(d1.guess_name(&From::from(10)).unwrap(), "C");
    assert_eq!(d1.find_name(&From::from(11)).is_none(), true);
    assert_eq!(d1.guess_name(&From::from(11)).unwrap(), "C");
    assert_eq!(d1.find_name(&From::from(19)).is_none(), true);
    assert_eq!(d1.guess_name(&From::from(19)).unwrap(), "C");
    assert_eq!(d1.find_name(&From::from(20)).unwrap(), "A");
    assert_eq!(d1.guess_name(&From::from(20)).unwrap(), "A");
    assert_eq!(d1.find_name(&From::from(21)).is_none(), true);
    assert_eq!(d1.guess_name(&From::from(21)).unwrap(), "A");
    assert_eq!(d1.find_name(&From::from(29)).is_none(), true);
    assert_eq!(d1.guess_name(&From::from(29)).unwrap(), "A");
    assert_eq!(d1.find_name(&From::from(30)).unwrap(), "B");
    assert_eq!(d1.guess_name(&From::from(30)).unwrap(), "B");
    assert_eq!(d1.find_name(&From::from(31)).is_none(), true);
    assert_eq!(d1.guess_name(&From::from(31)).unwrap(), "B");

    assert_eq!(d1.all_word_names(), ["C", "A", "B"]);
}

#[test]
fn test_word_fields() {
    let mut w = Word::new(From::from(1));
    assert_eq!(w.document(), "");
    w.set_document(String::from("what it does"));
    assert_eq!(w.document(), "what it does");
    w.set_code(From::from(9));
    assert_eq!(w.code(), CodeAddress(Address::Entity(9)));
    let copy = w.clone();
    assert_eq!(copy.code(), w.code());
    assert_eq!(copy.document(), w.document());
    assert_eq!(copy.is_immediate(), w.is_immediate());
}

#[test]
fn test_completed_word_is_found_and_guessed() {
    let mut d = Dictionary::new();
    assert_eq!(d.len(), 0);
    d.reserve_word_def(String::from("first"), Word::new(From::from(3)));
    d.complate_word_def().unwrap();
    d.reserve_word_def(String::from("second"), Word::new(From::from(7)));
    d.complate_word_def().unwrap();
    assert_eq!(d.len(), 2);
    assert_eq!(d.find_word(&String::from("second")).unwrap().code(), From::from(7));
    assert_eq!(d.guess_name(&From::from(7)).unwrap(), "second");
    assert_eq!(d.guess_name(&From::from(6)).unwrap(), "first");
    assert!(d.guess_name(&CodeAddress(Address::Root)).is_none());
    assert!(d.find_name(&CodeAddress(Address::Root)).is_none());
}

#[test]
fn test_word_at_root_is_not_guessed() {
    let mut d = Dictionary::new();
    d.reserve_word_def(String::from("nowhere"), Word::new(CodeAddress(Address::Root)));
    d.complate_word_def().unwrap();
    assert_eq!(d.find_name(&CodeAddress(Address::Root)).unwrap(), "nowhere");
    assert!(d.guess_name(&CodeAddress(Address::Root)).is_none());
    assert_eq!(d.guess_name(&From::from(0)).unwrap(), "nowhere");
}

#[test]
fn test_last_word_changes() {
    let mut d = Dictionary::new();
    assert!(matches!(d.find_last_word().unwrap_err(), WordErrorReason::EmptyDictionary));
    d.last_word_change_immidiate();
    d.last_word_set_document(String::from("nothing to document"));
    assert_eq!(d.len(), 0);

    d.reserve_word_def(String::from("w"), Word::new(From::from(1)));
    d.last_word_change_immidiate();
    assert!(d.find_last_word().unwrap().is_immediate());
    assert!(d.find_word(&String::from("w")).is_err());
    d.complate_word_def().unwrap();
    assert!(d.find_word(&String::from("w")).unwrap().is_immediate());

    d.last_word_set_document(String::from("doc"));
    assert_eq!(d.find_word(&String::from("w")).unwrap().document(), "doc");
    assert_eq!(d.find_last_word().unwrap().document(), "doc");

    d.find_word_mut(&String::from("w")).unwrap().set_code(From::from(5));
    assert_eq!(d.find_word(&String::from("w")).unwrap().code(), From::from(5));
    assert!(d.find_word_mut(&String::from("x")).is_err());
    d.find_last_word_mut().unwrap().set_code(From::from(6));
    assert_eq!(d.find_word(&String::from("w")).unwrap().code(), From::from(6));

    d.reserve_word_def(String::from("v"), Word::new(From::from(8)));
    d.find_word_within_resavation_mut(&String::from("v")).unwrap().set_code(From::from(9));
    assert_eq!(d.find_last_word().unwrap().code(), From::from(9));
    d.find_word_within_resavation_mut(&String::from("w")).unwrap().set_code(From::from(2));
    assert_eq!(d.find_word(&String::from("w")).unwrap().code(), From::from(2));
    assert!(d.find_word_within_resavation_mut(&String::from("u")).is_err());
}

#[test]
fn test_redefinition_shadows() {
    let mut d = Dictionary::new();
    d.reserve_word_def(String::from("w"), Word::new(From::from(1)));
    d.complate_word_def().unwrap();
    d.reserve_word_def(String::from("w"), Word::new(From::from(4)));
    assert_eq!(d.find_word(&String::from("w")).unwrap().code(), From::from(1));
    assert_eq!(d.find_word_within_resavation(&String::from("w")).unwrap().code(), From::from(4));
    d.complate_word_def().unwrap();
    assert_eq!(d.len(), 1);
    assert_eq!(d.find_word(&String::from("w")).unwrap().code(), From::from(4));
    assert_eq!(d.all_word_names(), ["w"]);
    assert_eq!(d.guess_name(&From::from(2)).unwrap(), "w");
}

#[test]
fn test_local_dictionary_names() {
    let mut d = LocalDictionary::new();
    assert_eq!(d.len(), 0);
    d.push(String::from("a"));
    d.push(String::from("b"));
    d.push(String::from("a"));
    assert_eq!(d.len(), 2);
    assert_eq!(d.find(&String::from("a")).unwrap(), EnvironmentStackRelativeAddress(2));
    assert_eq!(d.find(&String::from("b")).unwrap(), EnvironmentStackRelativeAddress(1));
    let mut names: Vec<String> = d.get_all_local_names().into_iter().cloned().collect();
    names.sort();
    assert_eq!(names, ["a", "b"]);
    d.clear();
    assert_eq!(d.len(), 0);
    assert!(d.find(&String::from("a")).is_none());
    d.push(String::from("c"));
    assert_eq!(d.find(&String::from("c")).unwrap(), EnvironmentStackRelativeAddress(0));
}
