use std::future::Future;
use std::ops::Deref;
use std::pin::Pin;
use std::sync::Mutex;

use ledger_cli::app_info::AppInfo;
use ledger_cli::command::Commands;
use ledger_cli::device_info::DeviceInfo;
use ledger_cli::error::ProtocolError;
use ledger_cli::exchange::{build, execute, validate, Response};
use ledger_cli::frame::decode;
use ledger_transport::{APDUAnswer, APDUCommand, APDUErrorCode, Exchange};
use ledger_zondax_generic::{App, AppExt};

/// A transport that records what it is sent and always gives the same reply.
struct Canned {
    reply: Vec<u8>,
    sent: Mutex<Vec<Vec<u8>>>,
}

impl Canned {
    fn new(reply: &[u8]) -> Canned {
        Canned { reply: reply.to_vec(), sent: Mutex::new(Vec::new()) }
    }

    fn sent(&self) -> Vec<Vec<u8>> {
        self.sent.lock().unwrap().clone()
    }
}

impl Exchange for Canned {
    type Error = std::io::Error;
    type AnswerType = Vec<u8>;

    fn exchange<'life0, 'life1, 'async_trait, I>(
        &'life0 self,
        command: &'life1 APDUCommand<I>,
    ) -> Pin<
        Box<dyn Future<Output = Result<APDUAnswer<Vec<u8>>, std::io::Error>> + Send + 'async_trait>,
    >
    where
        I: Deref<Target = [u8]> + Send + Sync + 'async_trait,
        'life0: 'async_trait,
        'life1: 'async_trait,
        Self: 'async_trait,
    {
        self.sent.lock().unwrap().push(command.serialize());
        let answer = APDUAnswer::from_answer(self.reply.clone())
            .map_err(|_| std::io::Error::new(std::io::ErrorKind::UnexpectedEof, "short reply"));
        Box::pin(std::future::ready(answer))
    }
}

struct Wallet;

impl App for Wallet {
    const CLA: u8 = 0x55;
}

fn wait<F: Future>(future: F) -> F::Output {
    tokio::runtime::Builder::new_current_thread().build().unwrap().block_on(future)
}

fn device_info_reply() -> Vec<u8> {
    let mut raw = vec![0x31, 0x10, 0x00, 0x04];
    raw.push(5);
    raw.extend_from_slice(b"1.6.0");
    raw.push(4);
    raw.extend_from_slice(&[0xA6, 0x00, 0x00, 0x00]);
    raw.push(4);
    raw.extend_from_slice(b"1.7\0");
    raw.extend_from_slice(&[0x90, 0x00]);
    raw
}

fn app_info_reply() -> Vec<u8> {
    let mut raw = vec![1];
    raw.push(3);
    raw.extend_from_slice(b"BTC");
    raw.push(5);
    raw.extend_from_slice(b"2.1.0");
    raw.push(1);
    raw.push(0x84);
    raw.extend_from_slice(&[0x90, 0x00]);
    raw
}

#[test]
fn frames_are_those_zondax_generic_sends() {
    let transport = Canned::new(&[0x6F, 0x00]);
    let _ = wait(<Wallet as AppExt<Canned>>::get_device_info(&transport));
    let _ = wait(<Wallet as AppExt<Canned>>::get_app_info(&transport));
    let _ = wait(<Wallet as AppExt<Canned>>::get_version(&transport));
    let sent = transport.sent();
    assert_eq!(sent.len(), 3);
    assert_eq!(build(Commands::DeviceInfo).unwrap().serialize(), sent[0]);
    assert_eq!(build(Commands::AppInfo).unwrap().serialize(), sent[1]);
    assert_eq!(build(Commands::AppVersion { cla: Wallet::CLA }).unwrap().serialize(), sent[2]);
}

#[test]
fn device_info_agrees_with_zondax_generic() {
    let raw = device_info_reply();
    let transport = Canned::new(&raw);
    let theirs = wait(<Wallet as AppExt<Canned>>::get_device_info(&transport)).unwrap();
    let ours = DeviceInfo::decode(&validate(&raw).unwrap()).unwrap();
    assert_eq!(ours.target_id, theirs.target_id);
    assert_eq!(ours.se_version, theirs.se_version);
    assert_eq!(ours.flag, theirs.flag);
    assert_eq!(ours.mcu_version, theirs.mcu_version);
    assert_eq!(
        execute(Commands::DeviceInfo, |_wire| Ok(raw.clone())),
        Ok(Response::DeviceInfo(ours))
    );
}

#[test]
fn app_info_version_and_flags_agree_with_zondax_generic() {
    let raw = app_info_reply();
    let transport = Canned::new(&raw);
    let theirs = wait(<Wallet as AppExt<Canned>>::get_app_info(&transport)).unwrap();
    let ours = AppInfo::decode(&validate(&raw).unwrap()).unwrap();
    assert_eq!(ours.app_name, "BTC");
    assert_eq!(ours.app_version, theirs.app_version);
    assert_eq!(ours.flag_len, theirs.flag_len);
    assert_eq!(ours.flags_value, theirs.flags_value);
    assert_eq!(ours.flag_recovery, theirs.flag_recovery);
    assert_eq!(ours.flag_signed_mcu_code, theirs.flag_signed_mcu_code);
    assert_eq!(ours.flag_onboarded, theirs.flag_onboarded);
    assert_eq!(ours.flag_pin_validated, theirs.flag_pin_validated);
}

#[test]
fn decode_agrees_with_apdu_answer() {
    let replies: [&[u8]; 5] = [
        &[0xDE, 0xAD, 0xBE, 0xEF, 0x90, 0x00],
        &[0x64, 0x00],
        &[0xDE, 0xAD, 0xBE, 0xEF],
        &[1, 2, 3, 0x6A, 0x82],
        &[0, 0, 0],
    ];
    for raw in replies {
        let answer = APDUAnswer::from_answer(raw).unwrap();
        let (payload, status) = decode(raw).unwrap();
        assert_eq!(payload, answer.data());
        assert_eq!(status.raw(), answer.retcode());
        assert_eq!(status.is_success(), answer.error_code() == Ok(APDUErrorCode::NoError));
    }
    assert!(APDUAnswer::from_answer(&[0x90u8][..]).is_err());
    assert_eq!(decode(&[0x90]), Err(ProtocolError::TruncatedResponse));
}

#[test]
fn success_is_the_no_error_code() {
    for code in 0..=u16::MAX {
        let raw = code.to_be_bytes();
        let (_, status) = decode(&raw).unwrap();
        let named = APDUErrorCode::try_from(code);
        assert_eq!(status.is_success(), named == Ok(APDUErrorCode::NoError));
    }
}
