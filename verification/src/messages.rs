use vstd::prelude::*;

use crate::calculator::{CalculatorError, LimitingResource};

verus! {

/// The message shown to the player for each error.
pub open spec fn error_message(error: CalculatorError) -> &'static str {
    match error {
        CalculatorError::NegativeFuel => "燃料量不能为负数",
        CalculatorError::MissingOxidizer => "缺少氧化剂",
        CalculatorError::NegativeOxidizer => "氧化剂量不能为负数",
        CalculatorError::FuelExceedsCapacity => "燃料超过容量",
        CalculatorError::OxidizerExceedsCapacity => "氧化剂超过容量",
        CalculatorError::IncompatibleOxidizerTank => "氧化剂舱类型不兼容",
        CalculatorError::RocketExceedsMaxHeight => "火箭超过最大高度",
        CalculatorError::CommandModuleTooLess => "指挥舱数量不能为0",
        CalculatorError::CommandModuleTooMuch => "指挥舱数量不能多于1个",
        CalculatorError::ConeModuleTooLess => "前锥数量不能为0",
        CalculatorError::ConeModuleTooMuch => "前锥数量不能多于1个",
    }
}

/// The label shown to the player for each limiting resource.
pub open spec fn limiting_resource_label(limit: LimitingResource) -> &'static str {
    match limit {
        LimitingResource::Balance => "刚好平衡",
        LimitingResource::Fuel => "燃料",
        LimitingResource::Oxidizer => "氧化剂",
    }
}

pub fn error_message_text(error: &CalculatorError) -> (text: &'static str)
    ensures
        text == error_message(*error),
{
    match error {
        CalculatorError::NegativeFuel => "燃料量不能为负数",
        CalculatorError::MissingOxidizer => "缺少氧化剂",
        CalculatorError::NegativeOxidizer => "氧化剂量不能为负数",
        CalculatorError::FuelExceedsCapacity => "燃料超过容量",
        CalculatorError::OxidizerExceedsCapacity => "氧化剂超过容量",
        CalculatorError::IncompatibleOxidizerTank => "氧化剂舱类型不兼容",
        CalculatorError::RocketExceedsMaxHeight => "火箭超过最大高度",
        CalculatorError::CommandModuleTooLess => "指挥舱数量不能为0",
        CalculatorError::CommandModuleTooMuch => "指挥舱数量不能多于1个",
        CalculatorError::ConeModuleTooLess => "前锥数量不能为0",
        CalculatorError::ConeModuleTooMuch => "前锥数量不能多于1个",
    }
}

pub fn limiting_resource_message(limit: &LimitingResource) -> (text: &'static str)
    ensures
        text == limiting_resource_label(*limit),
{
    match limit {
        LimitingResource::Balance => "刚好平衡",
        LimitingResource::Fuel => "燃料",
        LimitingResource::Oxidizer => "氧化剂",
    }
}

/// Two different errors are never shown with the same message.
pub proof fn lemma_error_messages_distinct(a: CalculatorError, b: CalculatorError)
    requires
        a != b,
    ensures
        error_message(a)@ != error_message(b)@,
{
    reveal_strlit("燃料量不能为负数");
    reveal_strlit("缺少氧化剂");
    reveal_strlit("氧化剂量不能为负数");
    reveal_strlit("燃料超过容量");
    reveal_strlit("氧化剂超过容量");
    reveal_strlit("氧化剂舱类型不兼容");
    reveal_strlit("火箭超过最大高度");
    reveal_strlit("指挥舱数量不能为0");
    reveal_strlit("指挥舱数量不能多于1个");
    reveal_strlit("前锥数量不能为0");
    reveal_strlit("前锥数量不能多于1个");
    let x = error_message(a)@;
    let y = error_message(b)@;
    assert(x.len() != y.len() || x[0] != y[0] || x[3] != y[3]);
}

/// Two different limiting resources are never shown with the same label.
pub proof fn lemma_limiting_resource_labels_distinct(a: LimitingResource, b: LimitingResource)
    requires
        a != b,
    ensures
        limiting_resource_label(a)@ != limiting_resource_label(b)@,
{
    reveal_strlit("刚好平衡");
    reveal_strlit("燃料");
    reveal_strlit("氧化剂");
    let x = limiting_resource_label(a)@;
    let y = limiting_resource_label(b)@;
    assert(x.len() != y.len() || x[0] != y[0]);
}

} // verus!
