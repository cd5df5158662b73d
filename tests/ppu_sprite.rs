use baby_nes::ppu::sprite::build_sprite;

#[test]
fn create_sprite() {
    let channel_1 = vec![
        0b11111000,
        0b11111000,
        0b11111000,
        0b11111000,
        0b11111000,
        0b00000000,
        0b00000000,
        0b00000000,
    ];

    let channel_2 = vec![
        0b00000000,
        0b00000000,
        0b00000000,
        0b00011111,
        0b00011111,
        0b00011111,
        0b00011111,
        0b00011111,
    ];

    let data = [channel_1, channel_2].concat();
    let sprite = build_sprite(&data);

    match sprite {
        Ok(sprite) => assert_eq!(
            sprite,
            vec![
                vec![1, 1, 1, 1, 1, 0, 0, 0],
                vec![1, 1, 1, 1, 1, 0, 0, 0],
                vec![1, 1, 1, 1, 1, 0, 0, 0],
                vec![1, 1, 1, 3, 3, 2, 2, 2],
                vec![1, 1, 1, 3, 3, 2, 2, 2],
                vec![0, 0, 0, 2, 2, 2, 2, 2],
                vec![0, 0, 0, 2, 2, 2, 2, 2],
                vec![0, 0, 0, 2, 2, 2, 2, 2],
            ]
        ),
        Err(e) => panic!("{:?}", e),
    }
}

#[test]
fn sprite_length_must_be_16() {
    let data = vec![0x00; 15];
    let sprite = build_sprite(&data);
    assert!(sprite.is_err());

    let data = vec![0x00; 17];
    let sprite = build_sprite(&data);
    assert!(sprite.is_err());
}
