use promptuity::pagination::Page;
use promptuity::pagination::paginate;

fn range(r: std::ops::Range<usize>) -> Vec<usize> {
    (r.start..r.end + 1).collect()
}

#[test]
fn test_page() {
    let items_1_2 = range(1..2);
    let items_1_5 = range(1..5);
    let items_4_8 = range(4..8);
    let items_9_13 = range(9..13);
    let items_11_15 = range(11..15);

    let tests = vec![
        (
            5,
            range(1..15),
            0,
            Page {
                first: true,
                last: false,
                items: &items_1_5,
                cursor: 0,
                total: 15,
            },
        ),
        (
            5,
            range(1..15),
            2,
            Page {
                first: true,
                last: false,
                items: &items_1_5,
                cursor: 2,
                total: 15,
            },
        ),
        (
            5,
            range(1..15),
            5,
            Page {
                first: false,
                last: false,
                items: &items_4_8,
                cursor: 2,
                total: 15,
            },
        ),
        (
            5,
            range(1..15),
            10,
            Page {
                first: false,
                last: false,
                items: &items_9_13,
                cursor: 2,
                total: 15,
            },
        ),
        (
            5,
            range(1..15),
            12,
            Page {
                first: false,
                last: true,
                items: &items_11_15,
                cursor: 2,
                total: 15,
            },
        ),
        (
            5,
            range(1..15),
            13,
            Page {
                first: false,
                last: true,
                items: &items_11_15,
                cursor: 3,
                total: 15,
            },
        ),
        (
            5,
            range(1..15),
            14,
            Page {
                first: false,
                last: true,
                items: &items_11_15,
                cursor: 4,
                total: 15,
            },
        ),
        (
            5,
            range(1..5),
            3,
            Page {
                first: true,
                last: true,
                items: &items_1_5,
                cursor: 3,
                total: 5,
            },
        ),
        (
            5,
            range(1..2),
            1,
            Page {
                first: true,
                last: true,
                items: &items_1_2,
                cursor: 1,
                total: 2,
            },
        ),
    ];
    for (size, items, current, expected) in tests {
        assert_eq!(expected, paginate(size, &items, current));
    }
}

#[test]
fn window_length_is_min_of_capacity_and_total() {
    let items: Vec<u32> = (0..20).collect();
    for current in 0..20 {
        let page = paginate(7, &items, current);
        assert_eq!(page.items.len(), 7);
        assert!(page.cursor < page.items.len());
        assert_eq!(page.first, page.items[0] == 0);
        assert_eq!(page.last, *page.items.last().unwrap() == 19);
        assert_eq!(page.items[page.cursor], current as u32);
    }
    let short: Vec<u32> = (0..3).collect();
    for current in 0..3 {
        let page = paginate(7, &short, current);
        assert_eq!(page.items.len(), 3);
        assert!(page.first && page.last);
        assert_eq!(page.cursor, current);
    }
}

#[test]
fn window_pins_to_boundaries() {
    let items: Vec<u32> = (0..10).collect();
    let front = paginate(4, &items, 0);
    assert_eq!(front.items, &[0, 1, 2, 3]);
    assert_eq!(front.cursor, 0);
    assert!(front.first && !front.last);
    let back = paginate(4, &items, 9);
    assert_eq!(back.items, &[6, 7, 8, 9]);
    assert_eq!(back.cursor, 3);
    assert!(!back.first && back.last);
    let middle = paginate(4, &items, 5);
    assert_eq!(middle.items, &[3, 4, 5, 6]);
    assert_eq!(middle.cursor, 2);
    assert!(!middle.first && !middle.last);
}
