use exst::lang::debug::DebugInfoStore;
use exst::lang::value::Address;
use exst::lang::value::CodeAddress;

#[test]
fn test_debug_store() {
    let mut db = DebugInfoStore::new();

    db.call_script(&String::from("S001"));
    {
        db.put(From::from(0), 10, 100);
        assert_eq!(
            db.get_script_name(db.get(From::from(0)).unwrap().script_name_handle).unwrap(),
            &String::from("S001")
        );
        assert_eq!(db.get(From::from(0)).unwrap().line_number, 10);
        assert_eq!(db.get(From::from(0)).unwrap().column_number, 100);

        db.put(From::from(1), 11, 101);
        assert_eq!(
            db.get_script_name(db.get(From::from(1)).unwrap().script_name_handle).unwrap(),
            &String::from("S001")
        );
        assert_eq!(db.get(From::from(1)).unwrap().line_number, 11);
        assert_eq!(db.get(From::from(1)).unwrap().column_number, 101);

        db.call_script(&String::from("S002"));
        {
            db.put(From::from(2), 12, 102);
            assert_eq!(
                db.get_script_name(db.get(From::from(2)).unwrap().script_name_handle).unwrap(),
                &String::from("S002")
            );
            assert_eq!(db.get(From::from(2)).unwrap().line_number, 12);
            assert_eq!(db.get(From::from(2)).unwrap().column_number, 102);

            db.put(From::from(3), 13, 103);
            assert_eq!(
                db.get_script_name(db.get(From::from(3)).unwrap().script_name_handle).unwrap(),
                &String::from("S002")
            );
            assert_eq!(db.get(From::from(3)).unwrap().line_number, 13);
            assert_eq!(db.get(From::from(3)).unwrap().column_number, 103);
        }
        db.return_script();
        db.call_script(&String::from("S002"));
        {
            db.call_script(&String::from("S003"));
            {
                db.put(From::from(4), 14, 104);
                assert_eq!(
                    db.get_script_name(db.get(From::from(4)).unwrap().script_name_handle).unwrap(),
                    &String::from("S003")
                );
                assert_eq!(db.get(From::from(4)).unwrap().line_number, 14);
                assert_eq!(db.get(From::from(4)).unwrap().column_number, 104);
            }
            db.return_script();

            db.put(From::from(5), 15, 105);
            assert_eq!(
                db.get_script_name(db.get(From::from(5)).unwrap().script_name_handle).unwrap(),
                &String::from("S002")
            );
            assert_eq!(db.get(From::from(5)).unwrap().line_number, 15);
            assert_eq!(db.get(From::from(5)).unwrap().column_number, 105);
        }
        db.return_script();

        db.put(From::from(6), 16, 106);
        assert_eq!(
            db.get_script_name(db.get(From::from(6)).unwrap().script_name_handle).unwrap(),
            &String::from("S001")
        );
        assert_eq!(db.get(From::from(6)).unwrap().line_number, 16);
        assert_eq!(db.get(From::from(6)).unwrap().column_number, 106);

        db.put(From::from(7), 17, 107);
        assert_eq!(
            db.get_script_name(db.get(From::from(7)).unwrap().script_name_handle).unwrap(),
            &String::from("S001")
        );
        assert_eq!(db.get(From::from(7)).unwrap().line_number, 17);
        assert_eq!(db.get(From::from(7)).unwrap().column_number, 107);
    }
    db.return_script();

    assert_eq!(db.get_script_name(4), Option::None);
    assert_eq!(db.get(From::from(8)).is_none(), true);

    db.call_script(&String::from("S009"));
    {
        db.put(From::from(10), 20, 110);
        assert_eq!(db.get(From::from(8)).is_none(), true);
        assert_eq!(db.get(From::from(9)).is_none(), true);
        assert_eq!(
            db.get_script_name(db.get(From::from(10)).unwrap().script_name_handle).unwrap(),
            &String::from("S009")
        );
        assert_eq!(db.get(From::from(10)).unwrap().line_number, 20);
        assert_eq!(db.get(From::from(10)).unwrap().column_number, 110);
    }
    db.return_script();
}

#[test]
fn test_debug_store_at_the_edges() {
    let mut db = DebugInfoStore::new();
    assert!(db.current_script_name().is_none());
    assert!(db.get(CodeAddress(Address::Root)).is_none());
    db.put(CodeAddress(Address::Root), 1, 1);
    assert!(db.get(From::from(0)).is_none());
    db.return_script();
    assert!(db.current_script_name().is_none());
    db.call_script(&String::from("a"));
    db.call_script(&String::from("b"));
    assert_eq!(db.current_script_name().unwrap(), "b");
    db.return_script();
    assert_eq!(db.current_script_name().unwrap(), "a");
    db.return_script();
    assert_eq!(db.current_script_name().unwrap(), "a");
    db.put(From::from(2), 5, 6);
    db.put(From::from(2), 7, 8);
    assert_eq!(db.get(From::from(2)).unwrap().line_number, 7);
    assert_eq!(db.get(From::from(2)).unwrap().script_name_handle, 0);
    assert!(db.get(From::from(1)).is_none());
}
