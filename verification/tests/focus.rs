use tino::focus::{advance_focus, FieldId, FIELD_COUNT};

#[test]
fn the_focus_advances_by_one_and_wraps() {
    assert_eq!(advance_focus(0, 5), 1);
    assert_eq!(advance_focus(1, 5), 2);
    assert_eq!(advance_focus(3, 5), 4);
    assert_eq!(advance_focus(4, 5), 0);
}

#[test]
fn the_focus_advances_modulo_any_count() {
    assert_eq!(advance_focus(0, 1), 0);
    assert_eq!(advance_focus(7, 3), 2);
    assert_eq!(advance_focus(8, 3), 0);
    assert_eq!(advance_focus(usize::MAX, 5), (usize::MAX % 5 + 1) % 5);
    assert_eq!(advance_focus(usize::MAX, usize::MAX), 1);
}

#[test]
fn the_fields_follow_each_other_in_a_cycle() {
    assert_eq!(FieldId::NameInput.successor(), FieldId::TypeList);
    assert_eq!(FieldId::TypeList.successor(), FieldId::CategoryList);
    assert_eq!(FieldId::CategoryList.successor(), FieldId::FileList);
    assert_eq!(FieldId::FileList.successor(), FieldId::Preview);
    assert_eq!(FieldId::Preview.successor(), FieldId::NameInput);
}

#[test]
fn five_moves_of_the_focus_come_back() {
    let all = [
        FieldId::NameInput,
        FieldId::TypeList,
        FieldId::CategoryList,
        FieldId::FileList,
        FieldId::Preview,
    ];
    assert_eq!(FIELD_COUNT, 5);
    for start in all {
        let mut field = start;
        for _ in 0..FIELD_COUNT {
            field = field.successor();
        }
        assert_eq!(field, start);
    }
}

#[test]
fn fields_and_indices_name_each_other() {
    assert_eq!(FieldId::NameInput.index(), 0);
    assert_eq!(FieldId::TypeList.index(), 1);
    assert_eq!(FieldId::CategoryList.index(), 2);
    assert_eq!(FieldId::FileList.index(), 3);
    assert_eq!(FieldId::Preview.index(), 4);
    for i in 0..5 {
        assert_eq!(FieldId::from_index(i).unwrap().index(), i);
        assert_eq!(
            FieldId::from_index(i).unwrap().successor().index(),
            advance_focus(i, FIELD_COUNT)
        );
    }
    assert_eq!(FieldId::from_index(5), None);
    assert_eq!(FieldId::from_index(usize::MAX), None);
}
