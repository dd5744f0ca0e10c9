use cartographers::pipeline::{Pipeline, Stage};

#[test]
fn stage_fires_when_all_handles_loaded() {
    let mut p = Pipeline::new();
    p.register(Stage { id: 1, handles: vec![10, 11] });
    assert_eq!(p.pending_count(), 1);
    assert_eq!(p.tick(&vec![10]), Vec::<u64>::new());
    assert_eq!(p.pending_count(), 1);
    assert_eq!(p.tick(&vec![10, 11]), vec![1]);
    assert_eq!(p.pending_count(), 0);
}

#[test]
fn stage_fires_exactly_once_even_if_handles_stay_loaded() {
    let mut p = Pipeline::new();
    p.register(Stage { id: 7, handles: vec![3] });
    let loaded = vec![3];
    assert_eq!(p.tick(&loaded), vec![7]);
    // The readiness predicate keeps answering true, yet nothing fires again.
    assert_eq!(p.tick(&loaded), Vec::<u64>::new());
    assert_eq!(p.tick(&loaded), Vec::<u64>::new());
    assert_eq!(p.pending_count(), 0);
}

#[test]
fn unready_stages_stay_pending_in_order() {
    let mut p = Pipeline::new();
    p.register(Stage { id: 1, handles: vec![10] });
    p.register(Stage { id: 2, handles: vec![20] });
    p.register(Stage { id: 3, handles: vec![10, 30] });
    assert_eq!(p.tick(&vec![10]), vec![1]);
    assert_eq!(p.pending_count(), 2);
    assert_eq!(p.tick(&vec![10, 20, 30]), vec![2, 3]);
    assert_eq!(p.pending_count(), 0);
}

#[test]
fn stage_with_no_handles_fires_immediately() {
    let mut p = Pipeline::new();
    p.register(Stage { id: 9, handles: Vec::new() });
    assert_eq!(p.tick(&Vec::new()), vec![9]);
}

#[test]
fn reaction_may_register_the_next_stage() {
    // The concrete startup chain: stage 1 awaits the base tiles, its
    // reaction generates composites and registers stage 2; stage 2 awaits
    // the composites and marks the game ready.
    let mut p = Pipeline::new();
    p.register(Stage { id: 1, handles: vec![100] });
    let fired = p.tick(&vec![100]);
    assert_eq!(fired, vec![1]);
    for id in fired {
        if id == 1 {
            p.register(Stage { id: 2, handles: vec![200, 201] });
        }
    }
    assert_eq!(p.tick(&vec![100, 200]), Vec::<u64>::new());
    assert_eq!(p.tick(&vec![100, 200, 201]), vec![2]);
    assert_eq!(p.pending_count(), 0);
}

#[test]
fn permanently_unready_stage_is_a_visible_hang() {
    let mut p = Pipeline::new();
    p.register(Stage { id: 4, handles: vec![40] });
    for _ in 0..10 {
        assert_eq!(p.tick(&vec![41]), Vec::<u64>::new());
    }
    assert_eq!(p.pending_count(), 1);
}

#[test]
fn re_registering_lets_a_reaction_run_again() {
    let mut p = Pipeline::new();
    p.register(Stage { id: 5, handles: vec![1] });
    assert_eq!(p.tick(&vec![1]), vec![5]);
    p.register(Stage { id: 5, handles: vec![1] });
    assert_eq!(p.tick(&vec![1]), vec![5]);
}
