//! The texts this library writes: the files it generates whole, and the
//! pieces it puts into the sources it edits.

use vstd::prelude::*;

verus! {

/// The header of feature flags that the sources are compiled with.
pub const CONFIG_H: &'static str = r#"/* config.h - Generated for Windows build */
#ifndef CONFIG_H
#define CONFIG_H

/* Windows specific defines */
#define HAVE_IO_H 1
#define HAVE_UNISTD_H 0
#define HAVE_SYS_RESOURCE_H 0
#define HAVE_GETPROCESSTIMES 1
#define HAVE_GETPROCESSMEMORYINFO 1
#define HAVE_SETCONSOLECTRLHANDLER 1
#define HAVE_SYS_SELECT_H 0
#define HAVE_TERMIOS_H 0
#define HAVE_KBHIT 1
#define HAVE_PEEKNAMEDPIPE 1
#define HAVE_GETSTDHANDLE 1
#define HAVE_GETRUSAGE 0

/* FFmpeg components */
#define CONFIG_AVUTIL 1
#define CONFIG_AVCODEC 1
#define CONFIG_AVFORMAT 1
#define CONFIG_AVDEVICE 1
#define CONFIG_AVFILTER 1
#define CONFIG_SWSCALE 1
#define CONFIG_SWRESAMPLE 1
#define CONFIG_POSTPROC 0

/* Architecture */
#define ARCH_X86_32 0
#define ARCH_X86_64 1

/* Threading */
#define HAVE_PTHREADS 0
#define HAVE_W32THREADS 1

/* Endianness */
#define HAVE_BIGENDIAN 0

/* Math functions - MSVC provides these as intrinsics */
#define HAVE_LRINT 1
#define HAVE_LRINTF 1

/* FFmpeg data directory - empty for Node.js addon */
#define FFMPEG_DATADIR ""
#define AVCONV_DATADIR ""

/* Build configuration */
#define CONFIG_THIS_YEAR 2025
#define FFMPEG_CONFIGURATION "Windows build for Node.js addon"
#define CC_IDENT "MSVC"
#define FFMPEG_VERSION "N/A"

#endif /* CONFIG_H */
"#;

/// The shim that registers the entry point with the host runtime.
pub const BINDING_C: &'static str = r#"#include <node_api.h>

// 声明ffmpeg.c中的napi函数
extern napi_value ffmpeg_run(napi_env env, napi_callback_info info);

napi_value Init(napi_env env, napi_value exports)
{
    napi_status status;
    napi_value fn;
    
    // 创建run函数
    status = napi_create_function(env, NULL, 0, ffmpeg_run, NULL, &fn);
    if (status != napi_ok) {
        return NULL;
    }
    
    // 将run函数添加到exports对象
    status = napi_set_named_property(env, exports, "run", fn);
    if (status != napi_ok) {
        return NULL;
    }
    
    return exports;
}

NAPI_MODULE(NODE_GYP_MODULE_NAME, Init)
"#;

/// The storage qualifier that keeps a function private to its file.
pub const STATIC_QUALIFIER: &'static str = "static ";

/// The header of the function that runs a transcoding job.
pub const TRANSCODE_SIGNATURE: &'static str = "int transcode(Scheduler *sch)";

/// The header of the function that releases what a run has allocated.
pub const CLEANUP_SIGNATURE: &'static str = "void ffmpeg_cleanup(int ret)";

/// The header of the program's entry point.
pub const MAIN_SIGNATURE: &'static str = "int main(int argc, char **argv)";

/// The name of the callable entry point that takes the place of the
/// program's own.
pub const ENTRY_POINT: &'static str = "ffmpeg_run";

/// What stands in the place of the removed entry point, up to the name of
/// the callable one.
pub const MAIN_REMOVED_HEAD: &'static str =
    "/*\n * Main function removed for Node.js addon\n * Use ";

/// What stands in the place of the removed entry point, behind the name of
/// the callable one.
pub const MAIN_REMOVED_TAIL: &'static str = "() instead\n */\n";

/// The landmark behind which the host runtime's header is included.
pub const INCLUDE_MARKER: &'static str = "#include \"ffmpeg_utils.h\"";

/// The directive that includes the host runtime's header.
pub const NAPI_INCLUDE: &'static str = "#include <node_api.h>";

/// The line break before and behind an inserted directive.
pub const LINE_BREAK: &'static str = "\n";

/// The comment above the callable entry point.
pub const RUN_FUNCTION_HEAD: &'static str = r#"

/**
 * Run ffmpeg with arguments (N-API function for Node.js addon)
 * This function replaces the main() function for use in Node.js addon
 */
"#;

/// The result type of the callable entry point, with which its header
/// starts.
pub const RUN_FUNCTION_TYPE: &'static str = "napi_value ";

/// The parameters and the body of the callable entry point.
pub const RUN_FUNCTION_REST: &'static str = r#"(napi_env env, napi_callback_info info)
{
    napi_status status;
    size_t argc = 1;
    napi_value argv[1];
    napi_value result;
    Scheduler *sch = NULL;
    int ret;
    BenchmarkTimeStamps ti;
    
    // 获取参数
    status = napi_get_cb_info(env, info, &argc, argv, NULL, NULL);
    if (status != napi_ok) {
        napi_throw_error(env, NULL, "Failed to get callback info");
        return NULL;
    }
    
    if (argc < 1) {
        napi_throw_type_error(env, NULL, "Expected an array of arguments");
        return NULL;
    }
    
    // 检查第一个参数是否为数组
    napi_valuetype valuetype;
    status = napi_typeof(env, argv[0], &valuetype);
    if (status != napi_ok || valuetype != napi_object) {
        napi_throw_type_error(env, NULL, "Expected an array of arguments");
        return NULL;
    }
    
    // 检查是否为数组
    bool is_array;
    status = napi_is_array(env, argv[0], &is_array);
    if (status != napi_ok || !is_array) {
        napi_throw_type_error(env, NULL, "Expected an array of arguments");
        return NULL;
    }
    
    // 获取数组长度
    uint32_t array_length;
    status = napi_get_array_length(env, argv[0], &array_length);
    if (status != napi_ok) {
        napi_throw_error(env, NULL, "Failed to get array length");
        return NULL;
    }
    
    // 分配内存存储字符串参数
    // 需要额外一个位置给"ffmpeg"程序名
    int total_args = (int)array_length + 1;
    char **argv_ptr = (char **)av_mallocz(sizeof(char *) * total_args);
    if (!argv_ptr) {
        napi_throw_error(env, NULL, "Failed to allocate memory");
        return NULL;
    }
    
    // 存储字符串内容的内存（需要持久化）
    char **str_storage = (char **)av_mallocz(sizeof(char *) * total_args);
    if (!str_storage) {
        av_free(argv_ptr);
        napi_throw_error(env, NULL, "Failed to allocate memory");
        return NULL;
    }
    
    // 第一个参数是程序名
    argv_ptr[0] = "ffmpeg";
    
    // 从JavaScript数组提取字符串参数
    for (uint32_t i = 0; i < array_length; i++) {
        napi_value element;
        status = napi_get_element(env, argv[0], i, &element);
        if (status != napi_ok) {
            // 清理内存
            for (int j = 0; j < i + 1; j++) {
                if (str_storage[j]) av_free(str_storage[j]);
            }
            av_free(str_storage);
            av_free(argv_ptr);
            napi_throw_error(env, NULL, "Failed to get array element");
            return NULL;
        }
        
        // 获取字符串值
        size_t str_len;
        status = napi_get_value_string_utf8(env, element, NULL, 0, &str_len);
        if (status != napi_ok) {
            // 清理内存
            for (int j = 0; j < i + 1; j++) {
                if (str_storage[j]) av_free(str_storage[j]);
            }
            av_free(str_storage);
            av_free(argv_ptr);
            napi_throw_type_error(env, NULL, "Array element must be a string");
            return NULL;
        }
        
        // 分配内存并复制字符串
        str_storage[i + 1] = (char *)av_mallocz(str_len + 1);
        if (!str_storage[i + 1]) {
            // 清理内存
            for (int j = 0; j < i + 1; j++) {
                if (str_storage[j]) av_free(str_storage[j]);
            }
            av_free(str_storage);
            av_free(argv_ptr);
            napi_throw_error(env, NULL, "Failed to allocate memory for string");
            return NULL;
        }
        
        size_t copied;
        status = napi_get_value_string_utf8(env, element, str_storage[i + 1], str_len + 1, &copied);
        if (status != napi_ok) {
            // 清理内存
            for (int j = 0; j < i + 2; j++) {
                if (str_storage[j]) av_free(str_storage[j]);
            }
            av_free(str_storage);
            av_free(argv_ptr);
            napi_throw_error(env, NULL, "Failed to get string value");
            return NULL;
        }
        
        argv_ptr[i + 1] = str_storage[i + 1];
    }
    
    // 调用ffmpeg核心逻辑
    init_dynload();
    
    setvbuf(stderr, NULL, _IONBF, 0);
    
    av_log_set_flags(AV_LOG_SKIP_REPEATED);
    parse_loglevel(total_args, argv_ptr, options);
    
#if CONFIG_AVDEVICE
    avdevice_register_all();
#endif
    avformat_network_init();
    
    sch = sch_alloc();
    if (!sch) {
        ret = AVERROR(ENOMEM);
        goto finish;
    }
    
    ret = ffmpeg_parse_options(total_args, argv_ptr, sch);
    if (ret < 0)
        goto finish;
    
    if (nb_output_files <= 0 && nb_input_files == 0) {
        av_log(NULL, AV_LOG_WARNING, "No input or output files specified\n");
        ret = 1;
        goto finish;
    }
    
    if (nb_output_files <= 0) {
        av_log(NULL, AV_LOG_FATAL, "At least one output file must be specified\n");
        ret = 1;
        goto finish;
    }
    
    current_time = ti = get_benchmark_time_stamps();
    ret = transcode(sch);
    if (ret >= 0 && do_benchmark) {
        int64_t utime, stime, rtime;
        current_time = get_benchmark_time_stamps();
        utime = current_time.user_usec - ti.user_usec;
        stime = current_time.sys_usec  - ti.sys_usec;
        rtime = current_time.real_usec - ti.real_usec;
        av_log(NULL, AV_LOG_INFO,
               "bench: utime=%0.3fs stime=%0.3fs rtime=%0.3fs\n",
               utime / 1000000.0, stime / 1000000.0, rtime / 1000000.0);
    }
    
    ret = received_nb_signals                 ? 255 :
          (ret == FFMPEG_ERROR_RATE_EXCEEDED) ?  69 : ret;
    
finish:
    if (ret == AVERROR_EXIT)
        ret = 0;
    
    ffmpeg_cleanup(ret);
    
    sch_free(&sch);
    
    // 清理字符串内存
    for (int i = 1; i < total_args; i++) {
        if (str_storage[i]) av_free(str_storage[i]);
    }
    av_free(str_storage);
    av_free(argv_ptr);
    
    // 返回结果
    status = napi_create_int32(env, ret, &result);
    if (status != napi_ok) {
        return NULL;
    }
    
    return result;
}
"#;

/// The condition under which the post-processing library is reported.
pub const POSTPROC_CONDITION: &'static str = "#if CONFIG_POSTPROC";

/// The indentation of the line that reports the post-processing library.
pub const POSTPROC_INDENT: &'static str = "    ";

/// The start of the call that reports the post-processing library.
pub const POSTPROC_CALL: &'static str = "PRINT_LIB_INFO(postproc";

/// The arguments of the call that reports the post-processing library.
pub const POSTPROC_ARGUMENTS: &'static str = ",   POSTPROC,   flags, level);";

/// What closes the condition.
pub const POSTPROC_END: &'static str = "\n#endif";

} // verus!
