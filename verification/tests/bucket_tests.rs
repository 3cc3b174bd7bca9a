use color_wheel::bucket::{bucket, BucketDirection};
use color_wheel::ratio::Ratio;

fn micro(n: u64) -> Ratio {
    Ratio::from_micro(n)
}

#[test]
fn test_bucket_up() {
    assert_eq!(bucket(micro(450_000), 1, 10, BucketDirection::Up), Ratio::new(5, 10));
    assert_eq!(bucket(micro(500_000), 1, 10, BucketDirection::Up), Ratio::new(5, 10));
    assert_eq!(bucket(micro(550_000), 1, 10, BucketDirection::Up), Ratio::new(6, 10));
    assert_eq!(bucket(micro(590_000), 1, 10, BucketDirection::Up), Ratio::new(6, 10));
    assert_eq!(bucket(micro(610_000), 1, 10, BucketDirection::Up), Ratio::new(7, 10));

    assert_eq!(
        bucket(Ratio::new(187, 1), 360, 36, BucketDirection::Up),
        Ratio::new(19 * 360, 36)
    );
}

#[test]
fn test_bucket_down() {
    assert_eq!(bucket(micro(450_000), 1, 10, BucketDirection::Down), Ratio::new(4, 10));
    assert_eq!(bucket(micro(500_000), 1, 10, BucketDirection::Down), Ratio::new(5, 10));
    assert_eq!(bucket(micro(550_000), 1, 10, BucketDirection::Down), Ratio::new(5, 10));
    assert_eq!(bucket(micro(590_000), 1, 10, BucketDirection::Down), Ratio::new(5, 10));
    assert_eq!(bucket(micro(610_000), 1, 10, BucketDirection::Down), Ratio::new(6, 10));

    assert_eq!(
        bucket(Ratio::new(187, 1), 360, 36, BucketDirection::Down),
        Ratio::new(18 * 360, 36)
    );
}

#[test]
fn bucket_up() {
    assert_eq!(
        bucket(Ratio::new(45, 100), 1, 10, BucketDirection::Up),
        Ratio::new(5, 10)
    );
    assert_eq!(
        bucket(Ratio::new(61, 100), 1, 10, BucketDirection::Up),
        Ratio::new(7, 10)
    );
}

#[test]
fn bucket_down() {
    assert_eq!(
        bucket(Ratio::new(45, 100), 1, 10, BucketDirection::Down),
        Ratio::new(4, 10)
    );
    assert_eq!(
        bucket(Ratio::new(61, 100), 1, 10, BucketDirection::Down),
        Ratio::new(6, 10)
    );
}

#[test]
fn bucket_up_is_the_mirror_of_bucket_down() {
    // The value 0.45 of maximum 1: up(0.45) and 1 - down(1 - 0.45) agree.
    let up = bucket(micro(450_000), 1, 10, BucketDirection::Up);
    let down_mirrored = bucket(
        Ratio::new(1_000_000 - 450_000, 1_000_000),
        1,
        10,
        BucketDirection::Down,
    );
    assert_eq!(up.num * down_mirrored.den + down_mirrored.num * up.den, up.den * down_mirrored.den);
}

#[test]
fn bucket_zero_buckets_is_identity() {
    let value = micro(123_456);
    assert_eq!(bucket(value, 1, 0, BucketDirection::Up), value);
    assert_eq!(bucket(value, 1, 0, BucketDirection::Down), value);
    let angle = Ratio::new(187, 1);
    assert_eq!(bucket(angle, 360, 0, BucketDirection::Up), angle);
    assert_eq!(bucket(angle, 360, 0, BucketDirection::Down), angle);
}
