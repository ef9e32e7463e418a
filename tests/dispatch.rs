use raw_syscall_base::args::{SyscallArgs, MAX_ARGS};

#[test]
fn each_count_routes_to_its_arity() {
    assert_eq!(SyscallArgs::from_slice(&[]), Some(SyscallArgs::Zero));
    assert_eq!(SyscallArgs::from_slice(&[7]), Some(SyscallArgs::One(7)));
    assert_eq!(SyscallArgs::from_slice(&[7, 8]), Some(SyscallArgs::Two(7, 8)));
    assert_eq!(SyscallArgs::from_slice(&[7, 8, 9]), Some(SyscallArgs::Three(7, 8, 9)));
    assert_eq!(SyscallArgs::from_slice(&[1, 2, 3, 4]), Some(SyscallArgs::Four(1, 2, 3, 4)));
    assert_eq!(
        SyscallArgs::from_slice(&[1, 2, 3, 4, 5]),
        Some(SyscallArgs::Five(1, 2, 3, 4, 5))
    );
    assert_eq!(
        SyscallArgs::from_slice(&[1, 2, 3, 4, 5, 6]),
        Some(SyscallArgs::Six(1, 2, 3, 4, 5, 6))
    );
}

#[test]
fn seven_or_more_arguments_are_refused() {
    assert_eq!(SyscallArgs::from_slice(&[1, 2, 3, 4, 5, 6, 7]), None);
    assert_eq!(SyscallArgs::from_slice(&[0; 8]), None);
    assert_eq!(SyscallArgs::from_slice(&[usize::MAX; 64]), None);
    assert_eq!(MAX_ARGS, 6);
}

#[test]
fn arity_and_words_follow_the_list() {
    let lists: [&[usize]; 7] = [
        &[],
        &[10],
        &[10, 11],
        &[10, 11, 12],
        &[10, 11, 12, 13],
        &[10, 11, 12, 13, 14],
        &[10, 11, 12, 13, 14, 15],
    ];
    for a in lists {
        let x = SyscallArgs::from_slice(a).unwrap();
        assert_eq!(x.arity(), a.len());
        assert_eq!(x.words(), a.to_vec());
    }
}

#[test]
fn words_keep_their_order() {
    let x = SyscallArgs::Six(6, 5, 4, 3, 2, 1);
    assert_eq!(x.words(), vec![6, 5, 4, 3, 2, 1]);
    assert_eq!(SyscallArgs::Zero.words(), Vec::<usize>::new());
    assert_eq!(SyscallArgs::Zero.arity(), 0);
}
