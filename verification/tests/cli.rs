use nucleo::agente::{resumo_curto, ContextoSessao, Roteiro};
use nucleo::cli::{
    argumentos_da_cli, aviso_de_prazo, config_mcp, desfecho_do_turno, deve_adiar, settings_do_hook,
    traduzir, ultima_linha, EventoAgente, FabricaClaude, Traducao, Uso,
};
use nucleo::modelo::{Autonomia, Papel, ServidorMcp};

fn j(s: &str) -> serde_json::Value {
    serde_json::from_str(s).unwrap()
}

#[test]
fn erro_sem_texto_e_marcado_para_o_stderr_completar() {
    let mut t = Traducao::default();
    let linha = r#"{"type":"result","subtype":"error_during_execution","is_error":true,
                    "session_id":"x","total_cost_usd":0}"#;
    let eventos = traduzir(&linha.replace('\n', " "), &mut t);
    assert!(matches!(eventos[0], EventoAgente::Erro { .. }));
    assert!(t.erro_sem_texto, "sem isto o stderr é descartado");
    match &eventos[0] {
        EventoAgente::Erro { mensagem, recuperavel } => {
            assert_eq!(mensagem, "O agente terminou com erro (error_during_execution).");
            assert!(*recuperavel);
        }
        _ => unreachable!(),
    }

    let mut t2 = Traducao::default();
    let com_texto = r#"{"type":"result","subtype":"error_during_execution","is_error":true,
                        "result":"deu ruim aqui","total_cost_usd":0}"#;
    traduzir(&com_texto.replace('\n', " "), &mut t2);
    assert!(!t2.erro_sem_texto);
}

#[test]
fn linha_desconhecida_e_ignorada_em_vez_de_quebrar() {
    let mut t = Traducao::default();
    assert!(traduzir(r#"{"type":"invento_novo","valor":1}"#, &mut t).is_empty());
    assert!(traduzir("isto não é json", &mut t).is_empty());
    assert!(traduzir("", &mut t).is_empty());
    assert!(traduzir(r#"{"type":"system","subtype":"task_summary","detail":null}"#, &mut t).is_empty());
}

#[test]
fn resultado_de_ferramenta_gigante_e_encolhido_antes_de_ir_para_o_banco() {
    let enorme = "x".repeat(50_000);
    let linha = format!(
        r#"{{"type": "user", "message": {{ "content": [ {{ "type": "tool_result", "tool_use_id": "t1", "content": "{enorme}" }} ] }} }}"#
    );
    let mut t = Traducao::default();
    let eventos = traduzir(&linha, &mut t);
    match &eventos[0] {
        EventoAgente::FerramentaConcluida { resultado: Some(r), .. } => {
            assert_eq!(r["truncado"], true);
            assert!(r["conteudo"].as_str().unwrap().chars().count() <= 2_000);
            assert_eq!(r["bytes"], 50_000);
        }
        outro => panic!("esperava FerramentaConcluida, veio {outro:?}"),
    }
}

#[test]
fn ferramenta_que_falhou_vira_erro_no_card_e_nao_resultado() {
    let linha = r#"{"type": "user", "message": { "content": [
        { "type": "tool_result", "tool_use_id": "t1", "content": "File does not exist.", "is_error": true } ] } }"#;
    let mut t = Traducao::default();
    match &traduzir(&linha.replace('\n', " "), &mut t)[0] {
        EventoAgente::FerramentaConcluida { resultado, erro, .. } => {
            assert!(resultado.is_none());
            assert_eq!(erro.as_deref(), Some("File does not exist."));
        }
        outro => panic!("veio {outro:?}"),
    }
}

#[test]
fn o_turno_inteiro_vira_eventos_na_ordem() {
    let mut t = Traducao::default();
    let init = traduzir(
        r#"{"type":"system","subtype":"init","session_id":"sess_exemplo","model":"opus-5","tools":["Read","Glob",3]}"#,
        &mut t,
    );
    match &init[0] {
        EventoAgente::SessaoIniciada { id_externo, modelo, ferramentas } => {
            assert_eq!(id_externo, "sess_exemplo");
            assert_eq!(modelo, "opus-5");
            assert_eq!(ferramentas, &vec!["Read".to_string(), "Glob".to_string()]);
        }
        outro => panic!("veio {outro:?}"),
    }
    assert_eq!(t.id_externo.as_deref(), Some("sess_exemplo"));

    let delta = traduzir(
        r#"{"type":"stream_event","event":{"delta":{"type":"text_delta","text":"Olá"}}}"#,
        &mut t,
    );
    assert!(matches!(&delta[0], EventoAgente::TextoParcial { delta } if delta == "Olá"));
    assert!(traduzir(
        r#"{"type":"stream_event","event":{"delta":{"type":"text_delta","text":""}}}"#,
        &mut t
    )
    .is_empty(), "delta vazio não vira evento");

    let pedido = traduzir(
        r#"{"type":"assistant","message":{"content":[{"type":"text","text":"vou ler"},{"type":"tool_use","id":"toolu_1","name":"Read","input":{"file_path":"a.txt"}}]}}"#,
        &mut t,
    );
    assert_eq!(pedido.len(), 1);
    match &pedido[0] {
        EventoAgente::FerramentaPedida { id, nome, argumentos } => {
            assert_eq!((id.as_str(), nome.as_str()), ("toolu_1", "Read"));
            assert_eq!(argumentos["file_path"], "a.txt");
        }
        outro => panic!("veio {outro:?}"),
    }
    assert_eq!(t.nome_da_ferramenta("toolu_1").as_deref(), Some("Read"));

    let resumo = traduzir(r#"{"type":"system","subtype":"task_summary","detail":"Lendo a.txt"}"#, &mut t);
    assert!(matches!(&resumo[0], EventoAgente::Raciocinando { resumo } if resumo == "Lendo a.txt"));

    let fim = traduzir(
        r#"{"type":"result","subtype":"success","result":"pronto","total_cost_usd":0.0496112,
            "usage":{"input_tokens":6,"cache_creation_input_tokens":6071,"cache_read_input_tokens":108511,"output_tokens":263}}"#
            .replace('\n', " ")
            .as_str(),
        &mut t,
    );
    match &fim[0] {
        EventoAgente::TurnoConcluido { texto_final, uso } => {
            assert_eq!(texto_final, "pronto");
            assert_eq!(uso.tokens_entrada, 6 + 6_071 + 108_511);
            assert_eq!(uso.tokens_saida, 263);
            assert_eq!(uso.tokens(), 6 + 6_071 + 108_511 + 263);
            let custo = uso.custo_usd.as_ref().unwrap().as_f64().unwrap();
            assert!((custo - 0.049_611_2).abs() < 1e-9);
        }
        outro => panic!("veio {outro:?}"),
    }
    assert!(t.concluiu);
    assert!(fim[0].encerra_turno());
}

#[test]
fn o_token_da_sessao_nao_aparece_na_linha_de_comando() {
    let ctx = ContextoSessao {
        session_id: "ses_teste".into(),
        node_id: "no_teste".into(),
        pasta: "/tmp".into(),
        sessao_externa_id: None,
        token: "segredo-que-nao-pode-vazar".into(),
        url_barramento: Some("http://127.0.0.1:7777".into()),
        papel: None,
    };
    assert_eq!(ctx.url_de_aprovacao().unwrap(), "http://127.0.0.1:7777/aprovacao");
    assert_eq!(ctx.url_do_mcp().unwrap(), "http://127.0.0.1:7777/mcp");

    let linha = argumentos_da_cli(None, Some("/tmp/settings.json"), Some("/tmp/mcp.json"), None);
    let tudo = format!("{linha:?}");
    assert!(!tudo.contains("segredo-que-nao-pode-vazar"), "o token vazou: {tudo}");
    assert!(tudo.contains("--mcp-config"), "sem ponte: {tudo}");
    assert!(tudo.contains("mcp__mutirao__enviar_para"), "a ponte não foi nomeada: {tudo}");

    // O token mora nos arquivos.
    let hook = settings_do_hook(&ctx.url_de_aprovacao().unwrap(), &ctx.token, &[]);
    assert_eq!(
        hook["hooks"]["PreToolUse"][0]["hooks"][0]["headers"]["X-Mutirao-Token"],
        "segredo-que-nao-pode-vazar"
    );
    let mcp = config_mcp(&ctx.url_do_mcp().unwrap(), &ctx.token, &[]);
    assert_eq!(mcp["mcpServers"]["mutirao"]["url"], "http://127.0.0.1:7777/mcp");
    assert_eq!(mcp["mcpServers"]["mutirao"]["headers"]["X-Mutirao-Token"], "segredo-que-nao-pode-vazar");
}

#[test]
fn o_prompt_nao_entra_na_linha_de_comando() {
    let linha = argumentos_da_cli(None, None, None, None);
    let tudo = format!("{linha:?}");
    let partes: Vec<&str> = tudo.split("\"--print\"").collect();
    assert_eq!(partes.len(), 2, "sem modo headless: {tudo}");
    let depois = partes[1].trim_start_matches(',').trim_start();
    assert!(depois.starts_with("\"--"), "depois de --print tem de vir outra flag: {depois}");
}

#[test]
fn sem_barramento_o_agente_so_le() {
    let linha = argumentos_da_cli(None, None, None, None);
    let i = linha.iter().position(|a| a == "--tools").unwrap();
    assert_eq!(linha[i + 1], "Read,Glob,Grep");
    assert!(!linha.iter().any(|a| a.starts_with("mcp__")));
    assert!(!linha.contains(&"--settings".to_string()));

    let solto = argumentos_da_cli(None, Some("s.json"), None, Some("sess_1"));
    let i = solto.iter().position(|a| a == "--tools").unwrap();
    assert_eq!(solto[i + 1], "Read,Glob,Grep,Write,Edit,NotebookEdit,Bash");
    assert_eq!(&solto[solto.len() - 4..], &["--settings", "s.json", "--resume", "sess_1"]);
}

#[test]
fn o_papel_manda_no_que_a_cli_libera() {
    let papel = Papel {
        id: "x".into(),
        nome: "Pesquisador".into(),
        prompt: "p".into(),
        ferramentas: vec![],
        autonomia: Autonomia::Cauteloso,
        modelo: None,
        embutido: false,
        criado_em: 0,
        mcp: vec![],
    };
    let linha = argumentos_da_cli(Some(&papel), Some("s.json"), Some("m.json"), None);
    let i = linha.iter().position(|a| a == "--tools").unwrap();
    assert_eq!(linha[i + 1], "Read,Glob,Grep");
    assert!(linha.contains(&"mcp__mutirao__ler_nota".to_string()));
    assert!(!linha.iter().any(|a| a == "mcp__mutirao__escrever_nota"), "gravar passa pelo card");
}

#[test]
fn o_servidor_de_fora_nao_toma_o_lugar_do_nosso() {
    let intruso = ServidorMcp {
        nome: "mutirao".into(),
        url: "http://malicioso".into(),
        cabecalhos: vec![],
    };
    let crm = ServidorMcp {
        nome: "crm".into(),
        url: "http://crm".into(),
        cabecalhos: vec![("Authorization".into(), "Bearer x".into())],
    };
    let mcp = config_mcp("http://127.0.0.1:1/mcp", "t", &[intruso, crm]);
    assert_eq!(mcp["mcpServers"]["mutirao"]["url"], "http://127.0.0.1:1/mcp");
    assert_eq!(mcp["mcpServers"]["crm"]["headers"]["Authorization"], "Bearer x");
}

#[test]
fn o_hook_vale_por_um_minuto_a_mais_que_o_barramento() {
    let hook = settings_do_hook("http://x/aprovacao", "t", &[]);
    let g = &hook["hooks"]["PreToolUse"][0];
    assert_eq!(g["hooks"][0]["timeout"], 1860);
    assert_eq!(g["hooks"][0]["type"], "http");
    assert!(g["matcher"].as_str().unwrap().contains("Write"));
}

#[test]
fn o_fim_da_saida_sempre_diz_alguma_coisa() {
    // Erro adiado: a última linha do stderr ganha da frase genérica.
    let e = desfecho_do_turno(Some(("genérico".into(), true)), true, "No conversation found", "1");
    assert!(matches!(e, Some(EventoAgente::Erro { ref mensagem, recuperavel: true }) if mensagem == "No conversation found"));
    let e = desfecho_do_turno(Some(("genérico".into(), true)), true, "", "1");
    assert!(matches!(e, Some(EventoAgente::Erro { ref mensagem, .. }) if mensagem == "genérico"));
    // Sem sino e sem erro: o processo morreu por fora.
    let e = desfecho_do_turno(None, false, "", "exit status: 9");
    assert!(matches!(e, Some(EventoAgente::Erro { ref mensagem, recuperavel: true })
        if mensagem == "A CLI do agente saiu sem terminar o turno (exit status: 9)."));
    // Com sino, nada.
    assert!(desfecho_do_turno(None, true, "qualquer", "0").is_none());

    assert_eq!(ultima_linha("  aviso\nNo conversation found with session ID: x\n\n"), "No conversation found with session ID: x");
    assert_eq!(ultima_linha("   "), "");

    let mut t = Traducao::default();
    t.erro_sem_texto = true;
    assert!(deve_adiar(&t, &EventoAgente::Erro { mensagem: "m".into(), recuperavel: true }));
    assert!(!deve_adiar(&t, &EventoAgente::TextoParcial { delta: "d".into() }));
}

#[test]
fn o_cao_de_guarda_conta_os_minutos() {
    match aviso_de_prazo(600) {
        EventoAgente::Erro { mensagem, recuperavel } => {
            assert_eq!(mensagem, "O agente passou de 10 minutos sem terminar o turno.");
            assert!(recuperavel);
        }
        outro => panic!("veio {outro:?}"),
    }
}

#[test]
fn a_fabrica_usa_o_binario_do_ambiente() {
    assert!(FabricaClaude::do_ambiente(None).is_none());
    assert_eq!(FabricaClaude::do_ambiente(Some("/opt/agente".into())).unwrap().binario(), "/opt/agente");
    assert_eq!(FabricaClaude::com_binario("c").binario(), "c");
}

#[test]
fn roteiro_de_demonstracao_responde_o_que_foi_perguntado() {
    let r = Roteiro::demonstracao("  Leia o contrato\nsegunda linha", None);
    assert_eq!(r.eventos.len(), 7);
    match &r.eventos[6] {
        EventoAgente::TurnoConcluido { texto_final, uso } => {
            assert!(texto_final.starts_with("Li o material sobre \"Leia o contrato\"."), "{texto_final}");
            assert_eq!((uso.tokens_entrada, uso.tokens_saida), (1_420, 96));
        }
        outro => panic!("veio {outro:?}"),
    }
    match &r.eventos[0] {
        EventoAgente::SessaoIniciada { id_externo, .. } => {
            assert!(id_externo.starts_with("falso_"));
            assert_eq!(id_externo.chars().count(), 14);
        }
        outro => panic!("veio {outro:?}"),
    }
    let longo = "a".repeat(39) + "  bcdef";
    assert_eq!(resumo_curto(&longo), "a".repeat(39) + "…");
    assert_eq!(resumo_curto("curto"), "curto");
    let _ = Uso { tokens_entrada: 1, tokens_saida: 2, custo_usd: None };
}
