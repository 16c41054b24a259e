use vstd::prelude::*;

verus! {

/// `c` is an ASCII decimal digit.
pub open spec fn is_decimal_digit(c: char) -> bool {
    '0' <= c <= '9'
}

/// The number a sequence of decimal digits spells.
pub open spec fn decimal_value(digits: Seq<char>) -> int
    decreases digits.len(),
{
    if digits.len() == 0 {
        0
    } else {
        decimal_value(digits.drop_last()) * 10 + (digits.last() as int - '0' as int)
    }
}

/// How a text reads as an `i32`: an optional `+` or `-` sign, then one or
/// more decimal digits and nothing else, spelling a number in `i32`'s range.
pub open spec fn parsed_i32(text: Seq<char>) -> Option<i32> {
    let signed = text.len() > 0 && (text[0] == '-' || text[0] == '+');
    let digits = if signed { text.skip(1) } else { text };
    let magnitude = decimal_value(digits);
    let value = if signed && text[0] == '-' { -magnitude } else { magnitude };
    if digits.len() > 0 && (forall|i: int| 0 <= i < digits.len() ==> is_decimal_digit(#[trigger] digits[i]))
        && i32::MIN <= value <= i32::MAX {
        Some(value as i32)
    } else {
        None
    }
}

/// Calls `str::parse::<i32>`, which by its documentation accepts exactly
/// an optional `+` or `-` followed by decimal digits, and fails when the
/// number does not fit in `i32`.
#[verifier::external_body]
fn parse_i32(text: &str) -> (n: Option<i32>)
    ensures
        n == parsed_i32(text@),
{
    text.parse::<i32>().ok()
}

/// Number of settings: 36 texts followed by the commission.
pub const SETTING_COUNT: usize = 37;

/// Where the broker-side instrument finds its shared memory segment, its
/// database and each of its collections, and the commission it charges.
#[derive(Debug)]
pub struct AppConfig {
    pub segment_broker: String,
    pub broker_name: String,
    pub mongo_uri: String,
    pub db_kointakalo_clearing: String,
    pub coll_h_lmtorder: String,
    pub coll_h_mktorder: String,
    pub coll_h_sorder: String,
    pub coll_h_slorder: String,
    pub coll_h_modforder: String,
    pub coll_h_dltorder: String,
    pub coll_p_order: String,
    pub coll_p_sorder: String,
    pub coll_p_slorder: String,
    pub coll_h_dltd_order: String,
    pub coll_h_dltd_sorder: String,
    pub coll_h_dltd_slorder: String,
    pub coll_h_modfd_order: String,
    pub coll_h_modfd_sorder: String,
    pub coll_h_modfd_slorder: String,
    pub coll_h_exctd_sorder: String,
    pub coll_h_exctd_slorder: String,
    pub coll_t_message: String,
    pub coll_h_match: String,
    pub coll_h_pnl_no_cmmss: String,
    pub coll_a_position: String,
    pub coll_h_clsdpos: String,
    pub coll_h_dltd_iceberg: String,
    pub coll_h_exctd_iceberg: String,
    pub coll_h_iceberg: String,
    pub coll_h_modfd_iceberg: String,
    pub coll_p_iceberg: String,
    pub coll_h_modficeberg: String,
    pub coll_h_dlticeberg: String,
    pub coll_h_cmmss_paid: String,
    pub coll_trdr_bal: String,
    pub coll_h_pnl_w_cmmss: String,
    pub commission: i32,
}

/// Why a configuration could not be built.
#[derive(PartialEq, Eq, Structural, Clone, Copy, Debug)]
pub enum ConfigError {
    /// The setting at this position was not given.
    Missing(usize),
    /// The commission is not a whole number that fits in `i32`.
    InvalidCommission,
}

impl AppConfig {
    /// The 36 text settings in their order.
    pub open spec fn texts(self) -> Seq<Seq<char>> {
        seq![
            self.segment_broker@,
            self.broker_name@,
            self.mongo_uri@,
            self.db_kointakalo_clearing@,
            self.coll_h_lmtorder@,
            self.coll_h_mktorder@,
            self.coll_h_sorder@,
            self.coll_h_slorder@,
            self.coll_h_modforder@,
            self.coll_h_dltorder@,
            self.coll_p_order@,
            self.coll_p_sorder@,
            self.coll_p_slorder@,
            self.coll_h_dltd_order@,
            self.coll_h_dltd_sorder@,
            self.coll_h_dltd_slorder@,
            self.coll_h_modfd_order@,
            self.coll_h_modfd_sorder@,
            self.coll_h_modfd_slorder@,
            self.coll_h_exctd_sorder@,
            self.coll_h_exctd_slorder@,
            self.coll_t_message@,
            self.coll_h_match@,
            self.coll_h_pnl_no_cmmss@,
            self.coll_a_position@,
            self.coll_h_clsdpos@,
            self.coll_h_dltd_iceberg@,
            self.coll_h_exctd_iceberg@,
            self.coll_h_iceberg@,
            self.coll_h_modfd_iceberg@,
            self.coll_p_iceberg@,
            self.coll_h_modficeberg@,
            self.coll_h_dlticeberg@,
            self.coll_h_cmmss_paid@,
            self.coll_trdr_bal@,
            self.coll_h_pnl_w_cmmss@
        ]
    }

    /// Builds the configuration from the settings in their order (the 36
    /// texts, then the commission). The first setting that is missing
    /// stops it; then a commission that does not parse.
    pub fn new(values: Vec<Option<String>>) -> (config: Result<AppConfig, ConfigError>)
        requires
            values@.len() == SETTING_COUNT,
        ensures
            match config {
                Ok(c) => {
                    &&& forall|i: int| 0 <= i < SETTING_COUNT ==> (#[trigger] values@[i]) is Some
                    &&& c.texts() == Seq::new(36, |i: int| values@[i]->0@)
                    &&& parsed_i32(values@[36]->0@) == Some(c.commission)
                },
                Err(ConfigError::Missing(k)) => {
                    &&& k < SETTING_COUNT
                    &&& values@[k as int] is None
                    &&& forall|i: int| 0 <= i < k ==> (#[trigger] values@[i]) is Some
                },
                Err(ConfigError::InvalidCommission) => {
                    &&& forall|i: int| 0 <= i < SETTING_COUNT ==> (#[trigger] values@[i]) is Some
                    &&& parsed_i32(values@[36]->0@) is None
                },
            },
    {
        let mut texts: Vec<String> = Vec::new();
        let mut i: usize = 0;
        while i < SETTING_COUNT
            invariant
                values@.len() == SETTING_COUNT,
                i <= SETTING_COUNT,
                texts@.len() == i,
                forall|j: int| 0 <= j < i ==> (#[trigger] values@[j]) is Some,
                forall|j: int| 0 <= j < i ==> (#[trigger] texts@[j])@ == values@[j]->0@,
            decreases SETTING_COUNT - i,
        {
            match &values[i] {
                Some(text) => {
                    texts.push(text.clone());
                },
                None => {
                    return Err(ConfigError::Missing(i));
                },
            }
            i = i + 1;
        }
        let commission = match parse_i32(texts[36].as_str()) {
            Some(n) => n,
            None => {
                return Err(ConfigError::InvalidCommission);
            },
        };
        let config = AppConfig {
            segment_broker: texts[0].clone(),
            broker_name: texts[1].clone(),
            mongo_uri: texts[2].clone(),
            db_kointakalo_clearing: texts[3].clone(),
            coll_h_lmtorder: texts[4].clone(),
            coll_h_mktorder: texts[5].clone(),
            coll_h_sorder: texts[6].clone(),
            coll_h_slorder: texts[7].clone(),
            coll_h_modforder: texts[8].clone(),
            coll_h_dltorder: texts[9].clone(),
            coll_p_order: texts[10].clone(),
            coll_p_sorder: texts[11].clone(),
            coll_p_slorder: texts[12].clone(),
            coll_h_dltd_order: texts[13].clone(),
            coll_h_dltd_sorder: texts[14].clone(),
            coll_h_dltd_slorder: texts[15].clone(),
            coll_h_modfd_order: texts[16].clone(),
            coll_h_modfd_sorder: texts[17].clone(),
            coll_h_modfd_slorder: texts[18].clone(),
            coll_h_exctd_sorder: texts[19].clone(),
            coll_h_exctd_slorder: texts[20].clone(),
            coll_t_message: texts[21].clone(),
            coll_h_match: texts[22].clone(),
            coll_h_pnl_no_cmmss: texts[23].clone(),
            coll_a_position: texts[24].clone(),
            coll_h_clsdpos: texts[25].clone(),
            coll_h_dltd_iceberg: texts[26].clone(),
            coll_h_exctd_iceberg: texts[27].clone(),
            coll_h_iceberg: texts[28].clone(),
            coll_h_modfd_iceberg: texts[29].clone(),
            coll_p_iceberg: texts[30].clone(),
            coll_h_modficeberg: texts[31].clone(),
            coll_h_dlticeberg: texts[32].clone(),
            coll_h_cmmss_paid: texts[33].clone(),
            coll_trdr_bal: texts[34].clone(),
            coll_h_pnl_w_cmmss: texts[35].clone(),
            commission,
        };
        assert(config.texts() =~= Seq::new(36, |i: int| values@[i]->0@));
        Ok(config)
    }
}

} // verus!
