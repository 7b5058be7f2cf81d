//! Replies: a status, security headers and a body.
use crate::headers::{
    header_contents, header_insert, header_map_new, no_headers, with_header, HeaderContents,
};
use axum::http::HeaderMap;
use vstd::prelude::*;

verus! {

/// The statuses that the server replies with.
#[derive(Debug, Clone, Copy, PartialEq, Eq, Structural)]
pub enum Status {
    Success,
    BadRequest,
    Unauthorized,
    Forbidden,
    NotFound,
    Conflict,
    InternalServerError,
    ServiceUnavailable,
}

/// The number of a status in HTTP.
pub open spec fn status_code(status: Status) -> u16 {
    match status {
        Status::Success => 200,
        Status::BadRequest => 400,
        Status::Unauthorized => 401,
        Status::Forbidden => 403,
        Status::NotFound => 404,
        Status::Conflict => 409,
        Status::InternalServerError => 500,
        Status::ServiceUnavailable => 503,
    }
}

impl Status {
    /// The number of this status in HTTP.
    pub fn code(self) -> (code: u16)
        ensures
            code == status_code(self),
    {
        match self {
            Status::Success => 200,
            Status::BadRequest => 400,
            Status::Unauthorized => 401,
            Status::Forbidden => 403,
            Status::NotFound => 404,
            Status::Conflict => 409,
            Status::InternalServerError => 500,
            Status::ServiceUnavailable => 503,
        }
    }
}

/// An amount of money, as the decimal text that the database hands out. Text that is no number
/// counts as zero.
#[derive(Debug)]
pub struct Amount {
    pub text: String,
}

impl View for Amount {
    type V = Seq<char>;

    open spec fn view(&self) -> Seq<char> {
        self.text@
    }
}

/// The difference of two amounts: `minuend` less `subtrahend`.
#[derive(Debug)]
pub struct Difference {
    pub minuend: Amount,
    pub subtrahend: Amount,
}

/// The texts of the two amounts of a difference.
#[verifier::ext_equal]
pub struct DifferenceView {
    pub minuend: Seq<char>,
    pub subtrahend: Seq<char>,
}

impl View for Difference {
    type V = DifferenceView;

    open spec fn view(&self) -> DifferenceView {
        DifferenceView { minuend: self.minuend@, subtrahend: self.subtrahend@ }
    }
}

/// The balance of one tenant.
#[derive(Debug)]
pub struct Balance {
    pub tenant_id: String,
    pub nama_toko: String,
    pub nama_pemilik: String,
    pub no_wa: String,
    pub saldo_tersedia: Difference,
    pub total_masuk: Amount,
    pub total_ditarik: Amount,
}

/// A balance, by its texts.
#[verifier::ext_equal]
pub struct BalanceView {
    pub tenant_id: Seq<char>,
    pub nama_toko: Seq<char>,
    pub nama_pemilik: Seq<char>,
    pub no_wa: Seq<char>,
    pub saldo_tersedia: DifferenceView,
    pub total_masuk: Seq<char>,
    pub total_ditarik: Seq<char>,
}

impl View for Balance {
    type V = BalanceView;

    open spec fn view(&self) -> BalanceView {
        BalanceView {
            tenant_id: self.tenant_id@,
            nama_toko: self.nama_toko@,
            nama_pemilik: self.nama_pemilik@,
            no_wa: self.no_wa@,
            saldo_tersedia: self.saldo_tersedia@,
            total_masuk: self.total_masuk@,
            total_ditarik: self.total_ditarik@,
        }
    }
}

/// One request of a tenant to withdraw money.
#[derive(Debug)]
pub struct Withdrawal {
    pub id: String,
    pub nama_toko: String,
    pub nama_pemilik: String,
    pub nominal: Amount,
    pub status: String,
    pub bank: String,
    pub rekening: String,
    pub atas_nama: String,
    pub tanggal: String,
}

/// A withdrawal, by its texts.
#[verifier::ext_equal]
pub struct WithdrawalView {
    pub id: Seq<char>,
    pub nama_toko: Seq<char>,
    pub nama_pemilik: Seq<char>,
    pub nominal: Seq<char>,
    pub status: Seq<char>,
    pub bank: Seq<char>,
    pub rekening: Seq<char>,
    pub atas_nama: Seq<char>,
    pub tanggal: Seq<char>,
}

impl View for Withdrawal {
    type V = WithdrawalView;

    open spec fn view(&self) -> WithdrawalView {
        WithdrawalView {
            id: self.id@,
            nama_toko: self.nama_toko@,
            nama_pemilik: self.nama_pemilik@,
            nominal: self.nominal@,
            status: self.status@,
            bank: self.bank@,
            rekening: self.rekening@,
            atas_nama: self.atas_nama@,
            tanggal: self.tanggal@,
        }
    }
}

/// The profile of a tenant.
#[derive(Debug)]
pub struct Profile {
    pub id: String,
    pub nama_toko: String,
    pub nama_pemilik: String,
    pub nomor_wa: String,
    pub email: String,
    pub alamat: String,
    pub no_ktp: String,
    pub no_npwp: String,
    pub bank_nama: String,
    pub bank_rekening: String,
    pub bank_atas_nama: String,
}

/// A profile, by its texts.
#[verifier::ext_equal]
pub struct ProfileView {
    pub id: Seq<char>,
    pub nama_toko: Seq<char>,
    pub nama_pemilik: Seq<char>,
    pub nomor_wa: Seq<char>,
    pub email: Seq<char>,
    pub alamat: Seq<char>,
    pub no_ktp: Seq<char>,
    pub no_npwp: Seq<char>,
    pub bank_nama: Seq<char>,
    pub bank_rekening: Seq<char>,
    pub bank_atas_nama: Seq<char>,
}

impl View for Profile {
    type V = ProfileView;

    open spec fn view(&self) -> ProfileView {
        ProfileView {
            id: self.id@,
            nama_toko: self.nama_toko@,
            nama_pemilik: self.nama_pemilik@,
            nomor_wa: self.nomor_wa@,
            email: self.email@,
            alamat: self.alamat@,
            no_ktp: self.no_ktp@,
            no_npwp: self.no_npwp@,
            bank_nama: self.bank_nama@,
            bank_rekening: self.bank_rekening@,
            bank_atas_nama: self.bank_atas_nama@,
        }
    }
}

/// One withdrawal in the history of a tenant.
#[derive(Debug)]
pub struct HistoryEntry {
    pub id: String,
    pub nominal: Amount,
    pub status: String,
    pub waktu: String,
}

/// A withdrawal in a history, by its texts.
#[verifier::ext_equal]
pub struct HistoryEntryView {
    pub id: Seq<char>,
    pub nominal: Seq<char>,
    pub status: Seq<char>,
    pub waktu: Seq<char>,
}

impl View for HistoryEntry {
    type V = HistoryEntryView;

    open spec fn view(&self) -> HistoryEntryView {
        HistoryEntryView {
            id: self.id@,
            nominal: self.nominal@,
            status: self.status@,
            waktu: self.waktu@,
        }
    }
}

/// The money of a tenant: what came in, when that was last brought up to date, and what the
/// tenant asked to withdraw.
#[derive(Debug)]
pub struct Finances {
    pub total_masuk: Amount,
    pub terakhir_sinkron_masuk: String,
    pub riwayat_penarikan: Vec<HistoryEntry>,
}

/// The money of a tenant, by its texts.
#[verifier::ext_equal]
pub struct FinancesView {
    pub total_masuk: Seq<char>,
    pub terakhir_sinkron_masuk: Seq<char>,
    pub riwayat_penarikan: Seq<HistoryEntryView>,
}

impl View for Finances {
    type V = FinancesView;

    open spec fn view(&self) -> FinancesView {
        FinancesView {
            total_masuk: self.total_masuk@,
            terakhir_sinkron_masuk: self.terakhir_sinkron_masuk@,
            riwayat_penarikan: self.riwayat_penarikan@.map_values(|e: HistoryEntry| e@),
        }
    }
}

/// What a reply says.
#[derive(Debug)]
pub enum Body {
    Error { error: String },
    Message { message: String },
    Session { message: String, token: String, username: String },
    Balances(Vec<Balance>),
    Withdrawals(Vec<Withdrawal>),
    Tenant { profil: Profile, keuangan: Finances },
}

/// What a reply says, by its texts.
#[verifier::ext_equal]
pub enum BodyView {
    Error { error: Seq<char> },
    Message { message: Seq<char> },
    Session { message: Seq<char>, token: Seq<char>, username: Seq<char> },
    Balances(Seq<BalanceView>),
    Withdrawals(Seq<WithdrawalView>),
    Tenant { profil: ProfileView, keuangan: FinancesView },
}

impl View for Body {
    type V = BodyView;

    open spec fn view(&self) -> BodyView {
        match self {
            Body::Error { error } => BodyView::Error { error: error@ },
            Body::Message { message } => BodyView::Message { message: message@ },
            Body::Session { message, token, username } => BodyView::Session {
                message: message@,
                token: token@,
                username: username@,
            },
            Body::Balances(list) => BodyView::Balances(list@.map_values(|b: Balance| b@)),
            Body::Withdrawals(list) => BodyView::Withdrawals(
                list@.map_values(|w: Withdrawal| w@),
            ),
            Body::Tenant { profil, keuangan } => BodyView::Tenant {
                profil: profil@,
                keuangan: keuangan@,
            },
        }
    }
}

/// A reply to a request.
#[derive(Debug)]
pub struct Reply {
    pub status: Status,
    pub headers: HeaderMap,
    pub body: Body,
}

/// A reply, by its status, the contents of its headers and its body.
#[verifier::ext_equal]
pub struct ReplyView {
    pub status: Status,
    pub headers: HeaderContents,
    pub body: BodyView,
}

impl View for Reply {
    type V = ReplyView;

    open spec fn view(&self) -> ReplyView {
        ReplyView {
            status: self.status,
            headers: header_contents(self.headers),
            body: self.body@,
        }
    }
}

/// The headers of a successful reply: nothing may be cached, sniffed or framed, and the
/// connection stays on HTTPS for a year.
pub open spec fn success_headers() -> HeaderContents {
    let h = no_headers();
    let h = with_header(
        h,
        "cache-control"@,
        "no-store, no-cache, must-revalidate, max-age=0"@,
    );
    let h = with_header(h, "pragma"@, "no-cache"@);
    let h = with_header(h, "x-content-type-options"@, "nosniff"@);
    let h = with_header(h, "x-frame-options"@, "DENY"@);
    with_header(h, "strict-transport-security"@, "max-age=31536000; includeSubDomains"@)
}

/// The headers of an error: nothing may be cached, sniffed or framed.
pub open spec fn error_headers() -> HeaderContents {
    let h = no_headers();
    let h = with_header(h, "cache-control"@, "no-store, no-cache, must-revalidate"@);
    let h = with_header(h, "x-content-type-options"@, "nosniff"@);
    with_header(h, "x-frame-options"@, "DENY"@)
}

/// The reply that reports success with `body`.
pub open spec fn success(body: BodyView) -> ReplyView {
    ReplyView { status: Status::Success, headers: success_headers(), body }
}

/// The reply that reports success with a message.
pub open spec fn message(text: Seq<char>) -> ReplyView {
    success(BodyView::Message { message: text })
}

/// The reply that reports an error.
pub open spec fn error(status: Status, text: Seq<char>) -> ReplyView {
    ReplyView { status, headers: error_headers(), body: BodyView::Error { error: text } }
}

/// Replies with success and `payload`.
pub fn success_response(payload: Body) -> (reply: Reply)
    ensures
        reply@ == success(payload@),
{
    proof {
        reveal_strlit("cache-control");
        reveal_strlit("no-store, no-cache, must-revalidate, max-age=0");
        reveal_strlit("pragma");
        reveal_strlit("no-cache");
        reveal_strlit("x-content-type-options");
        reveal_strlit("nosniff");
        reveal_strlit("x-frame-options");
        reveal_strlit("DENY");
        reveal_strlit("strict-transport-security");
        reveal_strlit("max-age=31536000; includeSubDomains");
    }
    let mut headers = header_map_new();
    header_insert(
        &mut headers,
        "cache-control",
        "no-store, no-cache, must-revalidate, max-age=0",
    );
    header_insert(&mut headers, "pragma", "no-cache");
    header_insert(&mut headers, "x-content-type-options", "nosniff");
    header_insert(&mut headers, "x-frame-options", "DENY");
    header_insert(
        &mut headers,
        "strict-transport-security",
        "max-age=31536000; includeSubDomains",
    );
    Reply { status: Status::Success, headers, body: payload }
}

/// Replies with success and a message.
pub fn message_response(text: &str) -> (reply: Reply)
    ensures
        reply@ == message(text@),
{
    success_response(Body::Message { message: text.to_string() })
}

/// Replies with an error.
pub fn error_response(status: Status, message: &str) -> (reply: Reply)
    ensures
        reply@ == error(status, message@),
{
    proof {
        reveal_strlit("cache-control");
        reveal_strlit("no-store, no-cache, must-revalidate");
        reveal_strlit("x-content-type-options");
        reveal_strlit("nosniff");
        reveal_strlit("x-frame-options");
        reveal_strlit("DENY");
    }
    let mut headers = header_map_new();
    header_insert(&mut headers, "cache-control", "no-store, no-cache, must-revalidate");
    header_insert(&mut headers, "x-content-type-options", "nosniff");
    header_insert(&mut headers, "x-frame-options", "DENY");
    Reply { status, headers, body: Body::Error { error: message.to_string() } }
}

} // verus!
