use calculator_program::account::Pubkey;
use calculator_program::counter::create;
use calculator_program::counter::decrement;
use calculator_program::counter::increment;
use calculator_program::counter::Counter;
use calculator_program::counter::Create;
use calculator_program::counter::Decrement;
use calculator_program::counter::Increment;

fn key(fill: u8) -> Pubkey {
    Pubkey { bytes: [fill; 32] }
}

#[test]
fn create_initializes_count_and_authority() {
    let mut ctx = Create {
        counter: Counter { authority: key(0), count: 77 },
        authority: key(9),
    };
    create(&mut ctx).unwrap();
    assert_eq!(ctx.counter.count, 0);
    assert_eq!(ctx.counter.authority, key(9));
}

#[test]
fn increment_adds_one() {
    let mut ctx = Increment {
        counter: Counter { authority: key(1), count: 41 },
        authority: key(1),
    };
    increment(&mut ctx).unwrap();
    assert_eq!(ctx.counter.count, 42);
    assert_eq!(ctx.counter.authority, key(1));
}

#[test]
fn decrement_subtracts_one() {
    let mut ctx = Decrement {
        counter: Counter { authority: key(1), count: 42 },
        authority: key(1),
    };
    decrement(&mut ctx).unwrap();
    assert_eq!(ctx.counter.count, 41);
}

#[test]
fn counter_lifecycle() {
    let mut created = Create {
        counter: Counter { authority: key(0), count: 5 },
        authority: key(3),
    };
    create(&mut created).unwrap();
    let mut up = Increment { counter: created.counter, authority: created.authority };
    increment(&mut up).unwrap();
    increment(&mut up).unwrap();
    assert_eq!(up.counter.count, 2);
    let mut down = Decrement { counter: up.counter, authority: up.authority };
    decrement(&mut down).unwrap();
    assert_eq!(down.counter.count, 1);
    assert_eq!(down.counter.authority, key(3));
}
