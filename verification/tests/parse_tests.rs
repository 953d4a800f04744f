use ecat_core::error::EepromError;
use ecat_core::error::Error;
use ecat_core::parse::map_opt;
use ecat_core::parse::map_res;
use ecat_core::parse::new_all_consumed;
use ecat_core::parse::new_le_i16;
use ecat_core::parse::new_le_u16;
use ecat_core::parse::new_le_u32;
use ecat_core::parse::new_le_u8;
use ecat_core::parse::take_bytes;

#[test]
fn le_integers() {
    let buf = [0x34, 0x12, 0x78, 0x56];

    let (rest, v) = new_le_u16(&buf).unwrap();
    assert_eq!(v, 0x1234);
    assert_eq!(rest, &[0x78, 0x56]);

    let (rest, v) = new_le_u32(&buf).unwrap();
    assert_eq!(v, 0x5678_1234);
    assert!(rest.is_empty());

    let (rest, v) = new_le_i16(&[0xfe, 0xff]).unwrap();
    assert_eq!(v, -2);
    assert!(rest.is_empty());

    let (rest, v) = new_le_u8(&buf).unwrap();
    assert_eq!(v, 0x34);
    assert_eq!(rest.len(), 3);
}

#[test]
fn le_integers_reject_short_input() {
    assert!(new_le_u16(&[0x01]).is_err());
    assert!(new_le_u32(&[0x01, 0x02, 0x03]).is_err());
    assert!(new_le_i16(&[]).is_err());
    assert!(new_le_u8(&[]).is_err());
}

#[test]
fn all_consumed() {
    assert!(new_all_consumed(&[]).is_ok());
    assert!(new_all_consumed(&[0x00]).is_err());
}

#[test]
fn take_and_combinators() {
    let buf = [1, 2, 3, 4, 5];

    let (rest, taken) = take_bytes(&buf, 2).unwrap();
    assert_eq!(taken, &[1, 2]);
    assert_eq!(rest, &[3, 4, 5]);
    assert!(take_bytes(&buf, 6).is_err());

    let (rest, doubled) = ecat_core::parse::map((&buf[..], 21u8), |v| v * 2);
    assert_eq!(doubled, 42);
    assert_eq!(rest.len(), 5);

    let ok: Result<(&[u8], u8), Error> = map_res((&buf[..], 21u8), |v| Ok(v + 1));
    assert_eq!(ok.unwrap().1, 22);
    let err: Result<(&[u8], u8), Error> =
        map_res((&buf[..], 21u8), |_| Err(Error::Eeprom(EepromError::Decode)));
    assert!(err.is_err());

    let some: Result<(&[u8], u8), Error> = map_opt((&buf[..], 21u8), |v| Some(v));
    assert_eq!(some.unwrap().1, 21);
    let none: Result<(&[u8], u8), Error> = map_opt((&buf[..], 21u8), |_| None::<u8>);
    assert_eq!(none, Err(Error::Eeprom(EepromError::Decode)));
}
