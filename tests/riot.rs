use stanley::system::riot::Riot;

#[test]
fn riot_test_1_clock_timer() {
    let mut riot = Riot::default();
    riot.set(0x14, 100).unwrap();
    riot.timer_reset = false;
    assert_eq!(riot.get(0x0284).unwrap(), 100);

    riot.tick(1);
    assert_eq!(riot.get(0x0284).unwrap(), 99);

    riot.tick(3);
    assert_eq!(riot.get(0x0284).unwrap(), 96);

    riot.tick(1024);
    assert_eq!(riot.get(0x0284).unwrap(), 96);
}


#[test]
fn riot_test_8_clock_timer() {
    let mut riot = Riot {
        timint: true,
        ..Default::default()
    };
    riot.set(0x15, 3).unwrap();
    riot.timer_reset = false;
    assert!(!riot.timint);
    assert_eq!(riot.get(0x0284).unwrap(), 3);

    riot.tick(9);
    assert_eq!(riot.get(0x0284).unwrap(), 1);

    riot.tick(8);
    assert_eq!(riot.get(0x0284).unwrap(), 0);

    riot.tick(7);
    assert_eq!(riot.get(0x0284).unwrap(), 0);

    riot.tick(1);
    assert_eq!(riot.get(0x0284).unwrap(), 0xFF);

    riot.set(0x15, 5).unwrap();
    riot.timer_reset = false;
    assert!(!riot.timint);
    riot.tick(42);

    assert!(riot.timint);
    assert_eq!(riot.get(0x0284).unwrap(), 0xFE);
}


#[test]
fn riot_test_64_clock_timer() {
    let mut riot = Riot::default();
    riot.set(0x16, 100).unwrap();
    riot.timer_reset = false;
    assert_eq!(riot.get(0x0284).unwrap(), 100);

    riot.tick(64);
    assert_eq!(riot.get(0x0284).unwrap(), 99);

    riot.tick(1);
    assert_eq!(riot.get(0x0284).unwrap(), 98);

    riot.tick(66);
    assert_eq!(riot.get(0x0284).unwrap(), 97);

    riot.tick(128);
    assert_eq!(riot.get(0x0284).unwrap(), 95);
}


#[test]
fn riot_test_1024_timer() {
    let mut riot = Riot::default();
    riot.set(0x17, 100).unwrap();
    riot.timer_reset = false;
    assert_eq!(riot.get(0x0284).unwrap(), 100);

    riot.tick(1024);
    assert_eq!(riot.get(0x0284).unwrap(), 99);

    riot.tick(1);
    assert_eq!(riot.get(0x0284).unwrap(), 98);
}
