use rust_in_action::progress_iter::{
    Bounded, Progress, ProgressDisplay, ProgressIteratorExt, Unbounded,
};

#[test]
fn new_progress_has_counted_nothing() {
    let progress = Progress::new(vec![1, 2, 3].into_iter());
    assert_eq!(progress.i, 0);
    assert_eq!(progress.display(), "\r");
}

#[test]
fn progress_wraps_any_iterator() {
    let mut progress = (0..).progress();
    assert_eq!(progress.i, 0);
    assert_eq!(progress.next(), (String::from("\r"), Some(0)));
    assert_eq!(progress.next(), (String::from("\r*"), Some(1)));
    assert_eq!(progress.next(), (String::from("\r**"), Some(2)));
    assert_eq!(progress.i, 3);
}

#[test]
fn unbounded_bar_is_a_row_of_stars() {
    let progress = Progress { iter: 0..0, i: 5, bound: Unbounded };
    assert_eq!(progress.display(), "\r*****");
}

#[test]
fn bounded_bar_is_filled_up_with_spaces() {
    let bound = Bounded { bound: 5, delims: ('[', ']') };
    let progress = Progress { iter: 0..0, i: 2, bound };
    assert_eq!(progress.display(), "\r[**   ]");
}

#[test]
fn bounded_bar_grows_beyond_its_bound() {
    let progress = Progress { iter: 0..0, i: 4, bound: Bounded { bound: 3, delims: ('<', '>') } };
    assert_eq!(progress.display(), "\r<****>");
    let progress = Progress { iter: 0..0, i: 3, bound: Bounded { bound: 3, delims: ('<', '>') } };
    assert_eq!(progress.display(), "\r<***>");
    let progress = Progress { iter: 0..0, i: 0, bound: Bounded { bound: 0, delims: ('<', '>') } };
    assert_eq!(progress.display(), "\r<>");
}

#[test]
fn bound_is_the_length_of_the_iterator() {
    let v = [1, 2, 3];
    let progress = v.iter().progress().with_bound();
    assert_eq!(progress.bound.bound, 3);
    assert_eq!(progress.bound.delims, ('[', ']'));
    assert_eq!(progress.i, 0);
    assert_eq!(progress.display(), "\r[   ]");
}

#[test]
fn bound_counts_what_is_left() {
    let v = [1, 2, 3, 4];
    let mut iter = v.iter();
    iter.next();
    let progress = iter.progress().with_bound();
    assert_eq!(progress.bound.bound, 3);
}

#[test]
fn bound_can_be_given() {
    let progress = Progress::new(0..).bounded_by(4);
    assert_eq!(progress.bound.bound, 4);
    assert_eq!(progress.bound.delims, ('[', ']'));
    assert_eq!(progress.i, 0);
    assert_eq!(progress.display(), "\r[    ]");
}

#[test]
fn delims_can_be_chosen() {
    let v = [1, 2, 3];
    let mut progress = v.iter().progress().with_bound().with_delims(('|', '|'));
    assert_eq!(progress.bound.bound, 3);
    assert_eq!(progress.next(), (String::from("\r|   |"), Some(&1)));
    assert_eq!(progress.next(), (String::from("\r|*  |"), Some(&2)));
    assert_eq!(progress.next(), (String::from("\r|** |"), Some(&3)));
    assert_eq!(progress.next(), (String::from("\r|***|"), None));
    assert_eq!(progress.next(), (String::from("\r|****|"), None));
    assert_eq!(progress.i, 5);
}
