//! Messages to the user about switches that did not take place.

use vstd::prelude::*;

verus! {

/// A message to the user about a switch that did not take place.
#[derive(Debug, PartialEq, Eq)]
pub enum Notice {
    FileNotFound(String),
    YamlSyntax(String),
    YamlTask(String),
    FileRead(String),
    FileReadTimeout,
    Rejected(String),
    BootError(String),
    CoreTimeout,
}

/// The kind of a message, as the front end knows it.
pub open spec fn notice_status(notice: Notice) -> Seq<char> {
    match notice {
        Notice::FileNotFound(_) => "config_validate::file_not_found"@,
        Notice::YamlSyntax(_) => "config_validate::yaml_syntax_error"@,
        Notice::YamlTask(_) => "config_validate::yaml_parse_error"@,
        Notice::FileRead(_) => "config_validate::file_read_error"@,
        Notice::FileReadTimeout => "config_validate::file_read_timeout"@,
        Notice::Rejected(_) => "config_validate::error"@,
        Notice::BootError(_) => "config_validate::boot_error"@,
        Notice::CoreTimeout => "config_validate::timeout"@,
    }
}

/// The text of a message.
pub open spec fn notice_message(notice: Notice) -> Seq<char> {
    match notice {
        Notice::FileNotFound(path) => path@,
        Notice::YamlSyntax(error) => " "@ + error@,
        Notice::YamlTask(error) => "YAML解析任务失败: "@ + error@,
        Notice::FileRead(error) => "无法读取目标配置文件: "@ + error@,
        Notice::FileReadTimeout => "读取配置文件超时(5秒)"@,
        Notice::Rejected(message) => message@,
        Notice::BootError(error) => error@,
        Notice::CoreTimeout => "配置更新超时(30秒)，可能是配置验证或核心通信阻塞"@,
    }
}

impl Notice {
    /// The kind of the message, as the front end knows it.
    pub fn status(&self) -> (status: &'static str)
        ensures
            status@ == notice_status(*self),
    {
        match self {
            Notice::FileNotFound(_) => "config_validate::file_not_found",
            Notice::YamlSyntax(_) => "config_validate::yaml_syntax_error",
            Notice::YamlTask(_) => "config_validate::yaml_parse_error",
            Notice::FileRead(_) => "config_validate::file_read_error",
            Notice::FileReadTimeout => "config_validate::file_read_timeout",
            Notice::Rejected(_) => "config_validate::error",
            Notice::BootError(_) => "config_validate::boot_error",
            Notice::CoreTimeout => "config_validate::timeout",
        }
    }

    /// The text of the message.
    pub fn message(&self) -> (message: String)
        ensures
            message@ == notice_message(*self),
    {
        match self {
            Notice::FileNotFound(path) => path.clone(),
            Notice::YamlSyntax(error) => " ".to_string().concat(error.as_str()),
            Notice::YamlTask(error) => "YAML解析任务失败: ".to_string().concat(error.as_str()),
            Notice::FileRead(error) => {
                "无法读取目标配置文件: ".to_string().concat(error.as_str())
            },
            Notice::FileReadTimeout => "读取配置文件超时(5秒)".to_string(),
            Notice::Rejected(message) => message.clone(),
            Notice::BootError(error) => error.clone(),
            Notice::CoreTimeout => {
                "配置更新超时(30秒)，可能是配置验证或核心通信阻塞".to_string()
            },
        }
    }
}

/// The kind of a message does not depend on the text in it.
pub proof fn law_kind_does_not_depend_on_the_text(left: String, right: String)
    ensures
        notice_status(Notice::FileNotFound(left)) == notice_status(Notice::FileNotFound(right)),
        notice_status(Notice::YamlSyntax(left)) == notice_status(Notice::YamlSyntax(right)),
        notice_status(Notice::YamlTask(left)) == notice_status(Notice::YamlTask(right)),
        notice_status(Notice::FileRead(left)) == notice_status(Notice::FileRead(right)),
        notice_status(Notice::Rejected(left)) == notice_status(Notice::Rejected(right)),
        notice_status(Notice::BootError(left)) == notice_status(Notice::BootError(right)),
{
}

/// A path, a rejection and a failure of the core are shown word for word; an error
/// of the file follows a heading that is the same for every error of its kind.
pub proof fn law_text_is_shown_whole(text: String)
    ensures
        notice_message(Notice::FileNotFound(text)) == text@,
        notice_message(Notice::Rejected(text)) == text@,
        notice_message(Notice::BootError(text)) == text@,
        notice_message(Notice::YamlSyntax(text)) == " "@ + text@,
        notice_message(Notice::YamlTask(text)) == "YAML解析任务失败: "@ + text@,
        notice_message(Notice::FileRead(text)) == "无法读取目标配置文件: "@ + text@,
{
}

} // verus!
