//! Names and addresses that the tool is built around.

use vstd::prelude::*;

verus! {

/// Name under which the tool is published.
pub const REPOSITORY: &'static str = "git-intelligence-message";

pub const DIFF_PROMPT_FILE: &'static str = "diff_prompt.txt";

pub const SUBJECT_PROMPT_FILE: &'static str = "subject_prompt.txt";

// Base addresses of the providers.
pub const MOONSHOT_BASE_URL: &'static str = "https://api.moonshot.cn";

pub const QWEN_BASE_URL: &'static str = "https://dashscope.aliyuncs.com";

pub const GPT_BASE_URL: &'static str = "https://api.openai.com";

pub const GEMINI_BASE_URL: &'static str = "https://generativelanguage.googleapis.com";

pub const DOUBAO_BASE_URL: &'static str = "https://ark.cn-beijing.volces.com";

pub const GLM_BASE_URL: &'static str = "https://open.bigmodel.cn";

pub const DEEPSEEK_BASE_URL: &'static str = "https://api.deepseek.com";

pub const QIANFAN_BASE_URL: &'static str = "https://qianfan.baidubce.com";

// Paths of the chat completions service at each provider.
pub const DEFAULT_CHAT_COMPLETIONS_PATH: &'static str = "/v1/chat/completions";

pub const QWEN_CHAT_COMPLETIONS_PATH: &'static str = "/compatible-mode/v1/chat/completions";

pub const GEMINI_CHAT_COMPLETIONS_PATH: &'static str = "/v1beta/openai/";

pub const DOUBAO_CHAT_COMPLETIONS_PATH: &'static str = "/api/v3/chat/completions";

pub const GLM_CHAT_COMPLETIONS_PATH: &'static str = "/api/paas/v4/chat/completions";

pub const QIANFAN_CHAT_COMPLETIONS_PATH: &'static str = "/v2/chat/completions";

/// Section of the configuration that holds the user's own parameters.
pub const CUSTOM_SECTION_NAME: &'static str = "user";

/// Number of lines a change description may have before the tool refuses to
/// send it to the model, unless the user configured another ceiling.
pub const DIFF_SIZE_LIMIT: usize = 1000;

/// The language in which the model answers unless told otherwise.
pub const DEFAULT_LANGUAGE: &'static str = "English";

} // verus!
