use kaju::programa::{analisar_fonte, comando_de, funcoes_de_teste, eh_arquivo_teste, relatorio_erros, resumo_testes, AcaoRepl, Comando, EventoRepl, Repl};
use kaju::texto::{contem, numero_para_texto};

fn arquivo(caminho: &str) -> bool {
    let p = std::path::Path::new(caminho);
    eh_arquivo_teste(
        p.extension().and_then(|e| e.to_str()),
        p.file_stem().and_then(|s| s.to_str()),
    )
}

#[test]
fn arquivos_de_teste() {
    assert!(arquivo("testes/meu_teste.kaju"));
    assert!(arquivo("a/TESTE_contas.kj"));
    assert!(arquivo("testes.kaju"));
    assert!(!arquivo("programa.kaju"));
    assert!(!arquivo("teste.txt"));
    assert!(!arquivo("teste"));
    assert!(!arquivo("teste/"));
    assert!(!arquivo(".kaju"));
    assert!(eh_arquivo_teste(Some("kj"), Some("Meu-Teste")));
    assert!(!eh_arquivo_teste(Some("KAJU"), Some("teste")));
    assert!(!eh_arquivo_teste(None, Some("teste")));
    assert!(!eh_arquivo_teste(Some("kaju"), None));
}

#[test]
fn contem_trechos() {
    assert!(contem("meu_teste", "teste"));
    assert!(contem("abc", ""));
    assert!(!contem("tes", "teste"));
    assert!(!contem("tesTe", "teste"));
}

#[test]
fn numeros_em_decimal() {
    assert_eq!(numero_para_texto(0), "0");
    assert_eq!(numero_para_texto(7), "7");
    assert_eq!(numero_para_texto(1203), "1203");
}

fn args(v: &[&str]) -> Vec<String> {
    v.iter().map(|s| s.to_string()).collect()
}

#[test]
fn comandos_da_linha_de_comando() {
    assert_eq!(comando_de(&args(&["kaju"])), Comando::Repl);
    assert_eq!(comando_de(&args(&["kaju", "explique", "K016"])), Comando::Explique(Some("K016".to_string())));
    assert_eq!(comando_de(&args(&["kaju", "explique"])), Comando::Explique(None));
    assert_eq!(comando_de(&args(&["kaju", "teste"])), Comando::Teste(None));
    assert_eq!(comando_de(&args(&["kaju", "teste", "pasta"])), Comando::Teste(Some("pasta".to_string())));
    assert_eq!(comando_de(&args(&["kaju", "--ajuda"])), Comando::Ajuda);
    assert_eq!(comando_de(&args(&["kaju", "-a"])), Comando::Ajuda);
    assert_eq!(comando_de(&args(&["kaju", "ajuda"])), Comando::Ajuda);
    assert_eq!(comando_de(&args(&["kaju", "--versao"])), Comando::Versao);
    assert_eq!(comando_de(&args(&["kaju", "-v"])), Comando::Versao);
    assert_eq!(comando_de(&args(&["kaju", "versao"])), Comando::Versao);
    assert_eq!(comando_de(&args(&["kaju", "prog.kaju", "extra"])), Comando::Executar("prog.kaju".to_string()));
}

#[test]
fn resumo_de_testes() {
    assert_eq!(resumo_testes(3, 0, 0), ("resumo: 3 passaram, 0 falharam".to_string(), true));
    assert_eq!(resumo_testes(2, 1, 0), ("resumo: 2 passaram, 1 falharam".to_string(), false));
    assert_eq!(
        resumo_testes(0, 0, 2),
        ("resumo: 0 passaram, 0 falharam, 2 arquivo(s) com erro".to_string(), false)
    );
}

#[test]
fn repl_junta_linhas_ate_fechar_os_blocos() {
    let mut r = Repl::novo();
    assert_eq!(r.prompt(), "kaju> ");
    assert!(matches!(r.receber(EventoRepl::Linha("se x {".to_string())), AcaoRepl::PedirMais));
    assert_eq!(r.prompt(), "....> ");
    assert!(matches!(r.receber(EventoRepl::Linha("  escreva(x)".to_string())), AcaoRepl::PedirMais));
    match r.receber(EventoRepl::Linha("}".to_string())) {
        AcaoRepl::Executar(t) => assert_eq!(t, "se x {\n  escreva(x)\n}\n"),
        _ => panic!("a entrada devia estar completa"),
    }
    assert_eq!(r.prompt(), "kaju> ");
    assert!(matches!(r.receber(EventoRepl::Linha("   ".to_string())), AcaoRepl::Continuar));
    assert!(matches!(r.receber(EventoRepl::Linha("f(".to_string())), AcaoRepl::PedirMais));
    assert!(matches!(r.receber(EventoRepl::Interrompido), AcaoRepl::Continuar));
    assert_eq!(r.prompt(), "kaju> ");
    match r.receber(EventoRepl::Linha("escreva(\"{\")".to_string())) {
        AcaoRepl::Executar(t) => assert_eq!(t, "escreva(\"{\")\n"),
        _ => panic!("chave dentro de texto não abre bloco"),
    }
    assert!(matches!(r.receber(EventoRepl::Fim), AcaoRepl::Sair));
}

#[test]
fn relatorio_de_varios_erros() {
    let fonte = "var a = )\nvar b = )";
    let ds = analisar_fonte(fonte).unwrap_err();
    let r = relatorio_erros(&ds, "x.kaju", fonte);
    let esperado = format!(
        "{}\n{}\n(2 erros encontrados)\ndica: rode 'kaju explique K008' para entender este erro.\n",
        ds[0].render("x.kaju", fonte),
        ds[1].render("x.kaju", fonte)
    );
    assert_eq!(r, esperado);
    assert_eq!(relatorio_erros(&Vec::new(), "x.kaju", fonte), "");
}

#[test]
fn funcoes_de_teste_em_ordem() {
    let cmds = analisar_fonte("funcao testeA() { }\nfuncao ajuda() { }\nvar testeX = 1\nfuncao teste() { }\nfuncao tes() { }").unwrap();
    assert_eq!(funcoes_de_teste(&cmds), vec!["testeA".to_string(), "teste".to_string()]);
    assert!(funcoes_de_teste(&Vec::new()).is_empty());
}
